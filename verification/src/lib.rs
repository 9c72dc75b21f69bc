//! Verified core of an ElevenLabs API client: retry policy, error
//! classification, request paths and multipart request bodies.

pub mod text;
pub mod middleware;
pub mod error;
pub mod client;
pub mod multipart;
pub mod types;
pub mod services;
pub mod query;
