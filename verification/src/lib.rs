//! The core of an Internet Printing Protocol (IPP) server.
//!
//! The library holds what such a server decides: how a message stands on
//! the wire ([`wire`], [`parser`]), how a request is dispatched
//! ([`service::common`]), what a printer answers and how it keeps track of
//! its jobs ([`service::simple`]), and how request and response bodies are
//! cut into chunks ([`body`], [`body_reader`]). It reads no socket and no
//! clock: whoever runs it hands it octets and times, and carries out what it
//! asks for.
//!
//! Every function has a contract over the views of its arguments. A few
//! functions call into the crates `ipp`, `moka` and `uuid`, or into parts of
//! std that have no specification: their contracts are taken on trust, and
//! their comments say so. All others are proved to keep their contracts.
//! [`roundtrip`], [`stability`], [`service::laws`] and [`service::writable`]
//! state what holds across functions.
pub mod attribute;
pub mod body;
pub mod body_reader;
pub mod error;
pub mod handler;
pub mod model;
pub mod parser;
pub mod request;
pub mod roundtrip;
pub mod server;
pub mod service;
pub mod stability;
pub mod status;
pub mod text;
pub mod utils;
pub mod value;
pub mod wire;
