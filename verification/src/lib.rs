//! A minimal line-oriented TCP text-protocol server, verified at its core.
//!
//! The library holds everything the server decides: which port to bind, how
//! an input line is trimmed and dispatched, and which reply each command
//! earns. The surrounding process (socket handling, threads, logging) is
//! ordinary I/O glue that consumes these decisions.

pub mod builder;
pub mod handler;
pub mod protocol;
