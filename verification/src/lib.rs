//! A SOCKS5-to-HTTP-CONNECT proxy gateway, verified.
//!
//! The crate holds the protocol logic of the gateway: the SOCKS5 handshake
//! parser, the HTTP CONNECT client handshake, the per-session state machines
//! and the server's session tables. Socket I/O, DNS resolution and the
//! command line live outside the library; they hand it plain values and
//! perform the actions it returns.

pub mod addr;
pub mod buffer;
pub mod datatype;
pub mod event;
pub mod http;
pub mod laws;
pub mod proxy;
pub mod socks;
