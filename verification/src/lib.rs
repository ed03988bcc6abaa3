//! A client for the private HTTP API of a music-streaming service: the
//! response envelope, the error taxonomy, and the construction of an
//! authenticated client.

pub mod client;
pub mod errors;
pub mod http;
pub mod json;
pub mod models;
