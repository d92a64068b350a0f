//! A small command-line HTTP client library: argument validation, the JSON
//! request body built from `key=value` pairs, and the choice of how a response
//! body is shown.

pub mod error;
pub mod kv;
pub mod url_arg;
pub mod body;
pub mod render;
pub mod request;
