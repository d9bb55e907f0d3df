//! What each page decides; fetching, caching and templating happen around it.
pub mod blogs;
pub mod home;
pub mod post;
pub mod react;
pub mod search;
pub mod tag;
