//! Sanity content: data models, the query builders, and the GROQ query strings.
pub mod client;
pub mod groq;
pub mod models;
pub mod queries;
pub mod reply;

pub use client::SanityClient;
