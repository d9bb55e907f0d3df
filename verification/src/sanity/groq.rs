//! GROQ string literals: how text from a request is written inside double quotes so
//! that it stays a single string value.
use vstd::prelude::*;

use crate::text::{chars_of, push_char};

verus! {

/// One character as it is written inside a GROQ string literal: a backslash and a
/// double quote are written with a backslash in front; every other character as is.
pub open spec fn groq_escape_char(c: char) -> Seq<char> {
    if c == '\\' {
        seq!['\\', '\\']
    } else if c == '"' {
        seq!['\\', '"']
    } else {
        seq![c]
    }
}

/// Text as it is written inside a GROQ string literal.
pub open spec fn groq_escape_spec(s: Seq<char>) -> Seq<char>
    decreases s.len(),
{
    if s.len() == 0 {
        seq![]
    } else {
        groq_escape_spec(s.drop_last()) + groq_escape_char(s.last())
    }
}

/// Writes `s` so that, placed between double quotes, it forms one GROQ string whose
/// value is `s`.
pub fn groq_escape(s: &str) -> (r: String)
    ensures
        r@ == groq_escape_spec(s@),
{
    let v = chars_of(s);
    let mut out = String::new();
    let mut i: usize = 0;
    while i < v.len()
        invariant
            v@ == s@,
            i <= v.len(),
            out@ == groq_escape_spec(s@.take(i as int)),
        decreases v.len() - i,
    {
        let c = v[i];
        let ghost before = out@;
        if c == '\\' {
            push_char(&mut out, '\\');
            push_char(&mut out, '\\');
        } else if c == '"' {
            push_char(&mut out, '\\');
            push_char(&mut out, '"');
        } else {
            push_char(&mut out, c);
        }
        assert(out@ =~= before + groq_escape_char(c));
        assert(s@.take(i + 1).drop_last() =~= s@.take(i as int));
        i = i + 1;
    }
    assert(s@.take(v.len() as int) =~= s@);
    out
}

/// The body of a string literal read from its opening quote: no double quote ends it
/// early and no backslash is left without a character to escape, so the literal ends
/// exactly at the closing quote written after it.
pub open spec fn stays_inside_string(t: Seq<char>) -> bool
    decreases t.len(),
{
    if t.len() == 0 {
        true
    } else if t[0] == '\\' {
        t.len() >= 2 && stays_inside_string(t.skip(2))
    } else if t[0] == '"' {
        false
    } else {
        stays_inside_string(t.drop_first())
    }
}

/// The value of a string literal's body: each backslash stands for the character after it.
pub open spec fn groq_unescape_spec(t: Seq<char>) -> Seq<char>
    decreases t.len(),
{
    if t.len() == 0 {
        seq![]
    } else if t[0] == '\\' && t.len() >= 2 {
        seq![t[1]] + groq_unescape_spec(t.skip(2))
    } else {
        seq![t[0]] + groq_unescape_spec(t.drop_first())
    }
}

/// Escaping distributes over concatenation.
pub proof fn lemma_groq_escape_concat(a: Seq<char>, b: Seq<char>)
    ensures
        groq_escape_spec(a + b) == groq_escape_spec(a) + groq_escape_spec(b),
    decreases b.len(),
{
    if b.len() == 0 {
        assert(a + b =~= a);
    } else {
        lemma_groq_escape_concat(a, b.drop_last());
        assert((a + b).drop_last() =~= a + b.drop_last());
        assert((a + b).last() == b.last());
    }
}

proof fn lemma_groq_escape_first(s: Seq<char>)
    requires
        s.len() > 0,
    ensures
        groq_escape_spec(s) == groq_escape_char(s[0]) + groq_escape_spec(s.drop_first()),
{
    lemma_groq_escape_concat(seq![s[0]], s.drop_first());
    assert(seq![s[0]] + s.drop_first() =~= s);
    assert(seq![s[0]].drop_last() =~= Seq::<char>::empty());
    reveal_with_fuel(groq_escape_spec, 2);
    assert(groq_escape_spec(seq![s[0]]) =~= groq_escape_char(s[0]));
}

/// Escaped text never ends a GROQ string early: whatever the input holds, it cannot
/// close the literal it is written into and change the query around it.
pub proof fn lemma_groq_escape_stays_inside(s: Seq<char>)
    ensures
        stays_inside_string(groq_escape_spec(s)),
    decreases s.len(),
{
    if s.len() > 0 {
        lemma_groq_escape_first(s);
        lemma_groq_escape_stays_inside(s.drop_first());
        let e = groq_escape_char(s[0]);
        let rest = groq_escape_spec(s.drop_first());
        let t = e + rest;
        if s[0] == '\\' || s[0] == '"' {
            assert(t.skip(2) =~= rest);
        } else {
            assert(t.drop_first() =~= rest);
        }
    }
}

/// Escaping loses nothing: the string value read back is the text that was escaped.
pub proof fn lemma_groq_unescape_escape(s: Seq<char>)
    ensures
        groq_unescape_spec(groq_escape_spec(s)) == s,
    decreases s.len(),
{
    if s.len() > 0 {
        lemma_groq_escape_first(s);
        lemma_groq_unescape_escape(s.drop_first());
        let e = groq_escape_char(s[0]);
        let rest = groq_escape_spec(s.drop_first());
        let t = e + rest;
        if s[0] == '\\' || s[0] == '"' {
            assert(t.skip(2) =~= rest);
        } else {
            assert(t.drop_first() =~= rest);
        }
        assert(seq![s[0]] + s.drop_first() =~= s);
    }
}

} // verus!
