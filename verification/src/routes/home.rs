//! Home page — landing with hero and recent posts grid.
use vstd::prelude::*;

verus! {

/// How many recent posts the home page shows.
pub const HOME_POSTS_PER_PAGE: u32 = 6;

} // verus!
