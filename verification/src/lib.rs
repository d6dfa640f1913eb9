//! WebTransport is a protocol for client-server communication over QUIC.
//!
//! WebTransport is layered on top of HTTP/3, which is then layered on top of QUIC. This crate is that
//! layering, apart from any QUIC implementation: what to send, what received bytes mean, what becomes of
//! a session, a stream or a handshake when something happens, and which error the application sees. The
//! QUIC layer itself, `s2n-quic` or `dquic`, is driven from outside: it hands in what it received or
//! what came of a call, and gets back what to do next.
//!
//! A single WebTransport session owns the entire QUIC connection. Pooling several sessions (or HTTP/3)
//! over the same connection is not supported.

pub mod accept;
pub mod buffer;
pub mod capsule;
pub mod client;
pub mod connect;
pub mod crypto;
pub mod dquic;
pub mod error;
pub mod header;
pub mod recv;
pub mod send;
pub mod server;
pub mod session;
pub mod settings;
pub mod span;
pub mod stats;
pub mod tls;
pub mod wire;

use vstd::prelude::*;

pub use accept::SessionAccept;
pub use client::{Client, ClientBuilder, DangerousClientBuilder, NoCertificateVerification};
pub use connect::{ConnectRequest, ConnectResponse, Connected, Connecting};
pub use error::{
    ClientError, ConnectError, ReadError, SendDatagramError, ServerError, SessionError,
    SettingsError, WebTransportError, WriteError,
};
pub use recv::RecvStream;
pub use send::SendStream;
pub use server::{HandshakeCounters, HandshakeLimits, HandshakeStats, Request, Server, ServerBuilder};
pub use session::Session;
pub use settings::Settings;
pub use stats::SessionStats;

verus! {

/// The HTTP/3 ALPN is required when negotiating a QUIC connection.
pub const ALPN: &'static str = "h3";

/// The send/receive queue depth for the datagrams of a connection.
pub const DATAGRAM_QUEUE_CAPACITY: usize = 1024;

} // verus!
