//! Validation of the process's one input, the episode selector.

use vstd::prelude::*;
use crate::codec::{parse_int, parse_int_spec};
use crate::errors::GameError;

verus! {

/// The smallest and largest supported episode numbers.
pub const MIN_EPISODE: i64 = 1;

pub const MAX_EPISODE: i64 = 6;

/// The command-line input: an episode selector, still as text.
pub struct Cli {
    pub episode: String,
}

impl Cli {
    /// Checks the episode selector before any other work: it must be an
    /// integer between `MIN_EPISODE` and `MAX_EPISODE`. Anything else is
    /// a configuration error.
    pub fn check_episode(&self) -> (r: Result<i64, GameError>)
        ensures
            match parse_int_spec(self.episode@) {
                Some(n) => if MIN_EPISODE <= n <= MAX_EPISODE {
                    r == Ok::<i64, GameError>(n)
                } else {
                    r == Err::<i64, GameError>(GameError::ConfigurationError)
                },
                None => r == Err::<i64, GameError>(GameError::ConfigurationError),
            },
    {
        match parse_int(self.episode.as_str()) {
            Some(n) => {
                if MIN_EPISODE <= n && n <= MAX_EPISODE {
                    Ok(n)
                } else {
                    Err(GameError::ConfigurationError)
                }
            },
            None => Err(GameError::ConfigurationError),
        }
    }
}

} // verus!
