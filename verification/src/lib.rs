//! UDP-over-HTTP(S) tunnel: the verified core.
//!
//! The tunnel carries UDP datagrams inside JSON bodies of HTTP POST exchanges.
//! This crate holds the decisions of both ends: the base64 framing of
//! datagrams, the request a client assembles, the checks the server applies
//! to a request and the reply it builds, the checks the client applies to a
//! reply, and where a client sends the datagrams that come back.

pub mod args;
pub mod base64;
pub mod channel;
pub mod client;
pub mod exchange;
pub mod interfaces;
pub mod server;
