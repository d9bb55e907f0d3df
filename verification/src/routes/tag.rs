//! Tag page — lists posts filtered by tag.
use vstd::prelude::*;
use vstd::string::*;

verus! {

/// Query parameters of the tag and search pages' layout switch.
pub struct ViewParams {
    pub view: Option<String>,
}

/// The layout asked for, or `list` when none was.
pub open spec fn view_mode_spec(view: Option<String>) -> Seq<char> {
    match view {
        Some(v) => v@,
        None => "list"@,
    }
}

/// The layout asked for, or `list` when none was.
pub fn view_mode_of(view: &Option<String>) -> (r: String)
    ensures
        r@ == view_mode_spec(*view),
{
    match view {
        Some(v) => v.clone(),
        None => String::from_str("list"),
    }
}

impl ViewParams {
    /// The layout asked for, or `list` when none was.
    pub fn view_mode(&self) -> (r: String)
        ensures
            r@ == view_mode_spec(self.view),
    {
        view_mode_of(&self.view)
    }
}

} // verus!
