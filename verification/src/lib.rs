//! Core protocol engine of a SOCKS5 proxy server (RFC 1928).
//!
//! The library is the per-connection protocol logic: parsing the client
//! greeting and request frames, negotiating an authentication method,
//! dispatching commands, classifying connect failures, encoding replies,
//! and deciding the full-duplex relay steps.  Everything here works on
//! plain values (bytes, vectors, integers); the embedding executable owns
//! the sockets and timers and feeds bytes in and out.

pub mod address;
pub mod command;
pub mod config;
pub mod driver;
pub mod error;
pub mod method;
pub mod relay;
pub mod reply;
pub mod request;
pub mod text;
pub mod wire;
