//! The HTTP front end.
pub mod http;
