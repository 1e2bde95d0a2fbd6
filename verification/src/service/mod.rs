//! The dispatcher and the printer service.
pub mod common;
pub mod info;
pub mod job;
pub mod laws;
pub mod printer;
pub mod simple;
pub mod store;
pub mod writable;

pub use common::IppService;
