//! Search page — full-text search across posts.
use vstd::prelude::*;
use vstd::string::*;

use crate::routes::tag::{view_mode_spec, view_mode_of};

verus! {

/// Query parameters of the search page.
pub struct SearchParams {
    pub q: Option<String>,
    pub view: Option<String>,
}

impl SearchParams {
    /// The search text, empty when none was given (an empty search shows no results).
    pub fn query_text(&self) -> (r: String)
        ensures
            r@ == (match self.q {
                Some(q) => q@,
                None => Seq::<char>::empty(),
            }),
    {
        match &self.q {
            Some(q) => q.clone(),
            None => String::new(),
        }
    }

    /// The layout asked for, or `list` when none was.
    pub fn view_mode(&self) -> (r: String)
        ensures
            r@ == view_mode_spec(self.view),
    {
        view_mode_of(&self.view)
    }
}

} // verus!
