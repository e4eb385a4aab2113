//! Ember: the protocol core of a Wisp v1/v2 proxy server.
//!
//! The modules here hold the wire format, the handshake and multiplexer
//! decisions, flow control, the circuit breaker and the configuration rules,
//! each with its contract.
pub mod error;
pub mod support;
pub mod wisp;
pub mod circuit_breaker;
pub mod config;
pub mod tls;
pub mod server;
pub mod pool;
pub mod tui;
pub mod uring;
