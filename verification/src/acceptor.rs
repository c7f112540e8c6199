//! The acceptor: it turns each raw connection of a listener into the start of
//! a TLS connection that shares one configuration.

use crate::engine::share_config;
use std::sync::Arc;
use tokio_rustls::rustls::ServerConfig;
use vstd::prelude::*;

verus! {

/// What polling the source of raw connections gave.
pub enum Incoming<C, E> {
    /// Nothing yet.
    Pending,
    /// A raw connection.
    Connection(C),
    /// An error; more connections may still arrive.
    Failed(E),
    /// The source is exhausted.
    Closed,
}

/// What the acceptor yields for it.
pub enum Accepted<C, E> {
    /// Nothing yet.
    Pending,
    /// A raw connection on which the handshake is to begin at once, with a
    /// handle to the shared configuration.
    Handshake { connection: C, config: Arc<ServerConfig> },
    /// The error of the source, passed on.
    Failed(E),
    /// The end of the stream of connections.
    Closed,
}

/// What the acceptor yields for what its source gave, under `config`. One raw
/// connection gives one handshake under the shared configuration; an error and
/// the end of the source are passed on.
pub open spec fn accepted_for<C, E>(config: ServerConfig, incoming: Incoming<C, E>) -> Accepted<
    C,
    E,
> {
    match incoming {
        Incoming::Pending => Accepted::Pending,
        Incoming::Connection(connection) => Accepted::Handshake {
            connection,
            config: Arc::new(config),
        },
        Incoming::Failed(error) => Accepted::Failed(error),
        Incoming::Closed => Accepted::Closed,
    }
}

/// A source of raw connections together with the configuration that all of its
/// TLS connections share.
pub struct TlsAcceptor<I> {
    config: Arc<ServerConfig>,
    incoming: I,
}

impl<I> TlsAcceptor<I> {
    /// The shared configuration.
    pub closed spec fn config(&self) -> ServerConfig {
        *self.config
    }

    /// The source of raw connections.
    pub closed spec fn incoming(&self) -> I {
        self.incoming
    }

    /// An acceptor over `incoming` whose connections share `config`.
    pub fn new(config: ServerConfig, incoming: I) -> (acceptor: Self)
        ensures
            acceptor.config() == config,
            acceptor.incoming() == incoming,
    {
        TlsAcceptor { config: Arc::new(config), incoming }
    }

    /// The source of raw connections, to be polled. The configuration is out
    /// of reach through it.
    pub fn incoming_mut(&mut self) -> (incoming: &mut I)
        ensures
            *incoming == old(self).incoming(),
            final(self).incoming() == *final(incoming),
            final(self).config() == old(self).config(),
    {
        &mut self.incoming
    }

    /// What to yield for what polling the source gave.
    pub fn accept<C, E>(&self, incoming: Incoming<C, E>) -> (accepted: Accepted<C, E>)
        ensures
            accepted == accepted_for(self.config(), incoming),
    {
        match incoming {
            Incoming::Pending => Accepted::Pending,
            Incoming::Connection(connection) => Accepted::Handshake {
                connection,
                config: share_config(&self.config),
            },
            Incoming::Failed(error) => Accepted::Failed(error),
            Incoming::Closed => Accepted::Closed,
        }
    }
}

} // verus!
