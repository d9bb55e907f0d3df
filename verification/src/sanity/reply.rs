//! The error texts of a failed Sanity query.
use vstd::prelude::*;
use vstd::string::*;
use vstd::utf8::*;

verus! {

/// How many bytes of a reply body an error message quotes at most.
pub const BODY_EXCERPT_BYTES: usize = 500;

/// The last character boundary of `bytes` at or before index `i`.
pub open spec fn boundary_at_or_before(bytes: Seq<u8>, i: int) -> int
    decreases i,
{
    if i <= 0 {
        0
    } else if is_char_boundary(bytes, i) {
        i
    } else {
        boundary_at_or_before(bytes, i - 1)
    }
}

/// The longest start of `body` whose UTF-8 encoding takes at most 500 bytes.
pub open spec fn body_excerpt_spec(body: Seq<char>) -> Seq<char> {
    let b = encode_utf8(body);
    let limit = if b.len() < 500 {
        b.len() as int
    } else {
        500
    };
    decode_utf8(b.subrange(0, boundary_at_or_before(b, limit)))
}

/// The start of a reply body quoted in an error message: at most 500 bytes, cut
/// where a character starts so that no character is split.
pub fn body_excerpt(body: &str) -> (r: &str)
    ensures
        r@ == body_excerpt_spec(body@),
{
    proof {
        broadcast use encode_utf8_valid_utf8, is_char_boundary_start_end_of_seq;
    }
    let ghost b = encode_utf8(body@);
    let len: usize = body.as_bytes().len();
    let mut end: usize = if len < BODY_EXCERPT_BYTES {
        len
    } else {
        BODY_EXCERPT_BYTES
    };
    let ghost limit: int = end as int;
    assert(limit == (if b.len() < 500 { b.len() as int } else { 500 }));
    assert(is_char_boundary(b, 0));
    while !body.is_char_boundary(end)
        invariant
            b == encode_utf8(body@),
            valid_utf8(b),
            end <= b.len(),
            boundary_at_or_before(b, limit) == boundary_at_or_before(b, end as int),
        decreases end,
    {
        assert(is_char_boundary(b, 0));
        end = end - 1;
    }
    assert(boundary_at_or_before(b, end as int) == end);
    let (prefix, _) = body.split_at(end);
    proof {
        assert(prefix.spec_bytes() =~= b.subrange(0, end as int));
        broadcast use encode_utf8_decode_utf8;
        assert(prefix@ == decode_utf8(encode_utf8(prefix@)));
    }
    prefix
}

/// A body of at most 500 bytes is quoted whole.
pub proof fn lemma_short_body_quoted_whole(body: Seq<char>)
    requires
        encode_utf8(body).len() <= 500,
    ensures
        body_excerpt_spec(body) == body,
{
    broadcast use encode_utf8_valid_utf8, is_char_boundary_start_end_of_seq, encode_utf8_decode_utf8;
    let b = encode_utf8(body);
    assert(is_char_boundary(b, b.len() as int));
    assert(b.subrange(0, b.len() as int) =~= b);
}

/// The message of a reply with an unsuccessful HTTP status.
pub fn http_error_message(status: &str, body: &str) -> (m: String)
    ensures
        m@ == "HTTP "@ + status@ + ": "@ + body@,
{
    let mut m = String::new();
    m.append("HTTP ");
    m.append(status);
    m.append(": ");
    m.append(body);
    m
}

/// The message of a reply whose body could not be decoded, quoting its start.
pub fn parse_error_message(error: &str, body: &str) -> (m: String)
    ensures
        m@ == "JSON parse failed: "@ + error@ + " | body: "@ + body_excerpt_spec(body@),
{
    let mut m = String::new();
    m.append("JSON parse failed: ");
    m.append(error);
    m.append(" | body: ");
    m.append(body_excerpt(body));
    m
}

} // verus!
