//! Automated play of a trivia-style quiz game: a persistent store of
//! question-id to answer-text pairs, replayed from an append-only log,
//! together with the decision logic of one game session and the timing
//! policy that paces submissions.

pub mod cli;
pub mod client;
pub mod codec;
pub mod errors;
pub mod session;
pub mod store;
pub mod timing;
