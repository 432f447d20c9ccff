//! A SOCKS5 proxy core: the per-connection protocol state machine
//! (handshake, optional username/password authentication, request parsing,
//! command dispatch) together with admission control that bounds the number
//! of concurrently active connections.
//!
//! Everything here is pure logic over plain values: byte vectors read from
//! the wire come in, response bytes and decisions go out. The network I/O
//! that surrounds it lives outside this crate.

pub mod config;
pub mod connection;
pub mod error;
pub mod protocol;
