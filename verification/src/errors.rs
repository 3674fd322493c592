//! Failure modes of the library and of the surrounding process.

use vstd::prelude::*;

verus! {

/// What can go wrong while setting up or playing a session.
///
/// `ConfigurationError` covers a missing credential or an invalid episode
/// selector; `StoreUnavailable` a backing log that cannot be created or
/// opened; `TransportError` a network failure; `ProtocolError` a response
/// missing an expected field. All four are fatal to the current run.
#[derive(Clone, Copy, Debug, PartialEq, Eq, Structural)]
pub enum GameError {
    ConfigurationError,
    StoreUnavailable,
    TransportError,
    ProtocolError,
}

impl GameError {
    /// A short diagnostic for the process to print before exiting.
    pub fn describe(&self) -> &'static str {
        match self {
            GameError::ConfigurationError => "invalid or missing configuration",
            GameError::StoreUnavailable => "answer store cannot be opened",
            GameError::TransportError => "network request failed",
            GameError::ProtocolError => "response missing an expected field",
        }
    }
}

} // verus!
