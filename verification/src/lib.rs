//! Server-side TLS termination: the configuration that a listener shares, and
//! the state machines of a connection that completes its handshake on first use.

pub mod acceptor;
pub mod assemble;
pub mod config;
pub mod engine;
pub mod error;
pub mod source;
pub mod stream;
