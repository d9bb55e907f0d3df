//! A server-rendered blog: its content model, the Portable Text renderer, the cache
//! keys, the Sanity queries, and the decisions that its pages make.
pub mod text;
pub mod sanity;
pub mod portable_text;
pub mod cache;
pub mod routes;
