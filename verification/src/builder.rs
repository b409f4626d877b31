//! Server configuration: a builder that records an optional port and the
//! rule that resolves it to the port actually bound.

use vstd::prelude::*;

verus! {

/// Port used when the builder was never given one.
pub const DEFAULT_PORT: u16 = 8080;

/// Accumulates the server configuration before the listening socket is
/// created. The only configurable item is the TCP port.
#[derive(Debug)]
pub struct ServerBuilder {
    port: Option<u16>,
}

impl ServerBuilder {
    /// The port the caller asked for, if any.
    pub closed spec fn requested_port(&self) -> Option<u16> {
        self.port
    }

    /// A fresh builder with no port chosen yet.
    pub fn new() -> (r: Self)
        ensures
            r.requested_port() == None::<u16>,
    {
        ServerBuilder { port: None }
    }

    /// Records an explicit port, replacing any earlier choice.
    pub fn port(self, port: u16) -> (r: Self)
        ensures
            r.requested_port() == Some(port),
    {
        ServerBuilder { port: Some(port) }
    }

    /// The port the server binds: the requested one when set, otherwise
    /// the default.
    pub fn effective_port(&self) -> (r: u16)
        ensures
            r == effective_port_spec(self.requested_port()),
    {
        match self.port {
            Some(p) => p,
            None => DEFAULT_PORT,
        }
    }
}

/// Resolution rule for the bound port: an explicit request wins, and a
/// builder left untouched falls back to the default.
pub open spec fn effective_port_spec(requested: Option<u16>) -> u16 {
    match requested {
        Some(p) => p,
        None => DEFAULT_PORT,
    }
}

} // verus!
