//! Transport and connection-lifecycle core of an asynchronous network client.
//!
//! Two independent parts: a byte stream that is either a raw TCP stream or a
//! TCP stream under TLS, and the state machine that tracks one logical
//! connection through its lifecycle.

pub mod tls_or_tcp_stream;
pub mod types;
