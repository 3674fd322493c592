//! The decision logic of one game session: which answer to submit for a
//! question, how a response updates the answer store, and whether play
//! continues, restarts, or stops. The surrounding process performs the
//! network calls and hands the decoded responses back in.
//!
//! The answer-selection policy is guess-and-learn: when a question has no
//! stored answer, the API's own suggested default is submitted and marked
//! as a guess; the first time such a guess proves correct it is persisted,
//! so future runs skip the guess.

use vstd::prelude::*;
use crate::codec::encode_line_spec;
use crate::errors::GameError;
use crate::store::AnswerStore;

verus! {

/// What the start of a session reports: the first question and the API's
/// suggested answer for it.
#[derive(Debug)]
pub struct StartInfo {
    pub question_id: i64,
    pub default_answer: String,
}

/// How a session proceeds after an answer: either a next question, or a
/// terminal signal carrying the lives left.
#[derive(Clone, Copy, Debug, PartialEq, Eq, Structural)]
pub enum Advance {
    Next(i64),
    Terminal(i64),
}

/// What the API reports for one submitted answer.
#[derive(Debug)]
pub struct AnswerOutcome {
    pub is_correct: bool,
    pub correct_answer: Option<String>,
    pub points: i64,
    pub advance: Advance,
}

/// The loop's decision after one answer: go on to the given question,
/// start a fresh session, or stop the whole program.
#[derive(Clone, Copy, Debug, PartialEq, Eq, Structural)]
pub enum SessionStep {
    Continue(i64),
    Restart,
    Stop,
}

/// Picks the answer to submit for `id`: the stored answer when one is
/// known, otherwise the API's suggested default. The flag says which it
/// was (`true` for a stored answer).
pub fn choose_answer(store: &AnswerStore, id: i64, default_answer: &String) -> (r: (String, bool))
    ensures
        store@.contains_key(id) ==> r.1 == true && (r.0)@ == store@[id],
        !store@.contains_key(id) ==> r.1 == false && (r.0)@ == default_answer@,
{
    match store.get(id) {
        Some(a) => (a.clone(), true),
        None => (default_answer.clone(), false),
    }
}

/// Applies one response to the store. An incorrect answer always records
/// the reported correct answer; a correct guess records the guess the
/// first time it proves right; a correct known answer changes nothing.
/// Returns the log line the caller must append when a record was made,
/// and fails only when an incorrect response omits the correct answer.
pub fn apply_outcome(
    store: &mut AnswerStore,
    id: i64,
    chosen: &String,
    known: bool,
    outcome: &AnswerOutcome,
) -> (r: Result<Option<String>, GameError>)
    ensures
        match r {
            Ok(line) => {
                &&& !outcome.is_correct ==> {
                    &&& outcome.correct_answer is Some
                    &&& final(store)@ == old(store)@.insert(id, (outcome.correct_answer->0)@)
                    &&& line matches Some(l) && l@ == encode_line_spec(
                        id,
                        (outcome.correct_answer->0)@,
                    )
                }
                &&& outcome.is_correct && !known ==> {
                    &&& final(store)@ == old(store)@.insert(id, chosen@)
                    &&& line matches Some(l) && l@ == encode_line_spec(id, chosen@)
                }
                &&& outcome.is_correct && known ==> {
                    &&& final(store)@ == old(store)@
                    &&& line is None
                }
            },
            Err(e) => {
                &&& e == GameError::ProtocolError
                &&& !outcome.is_correct
                &&& outcome.correct_answer is None
                &&& final(store)@ == old(store)@
            },
        },
{
    if !outcome.is_correct {
        match &outcome.correct_answer {
            Some(correct) => {
                let line = store.record(id, correct.clone());
                Ok(Some(line))
            },
            None => Err(GameError::ProtocolError),
        }
    } else if !known {
        let line = store.record(id, chosen.clone());
        Ok(Some(line))
    } else {
        Ok(None)
    }
}

/// Decides how play proceeds: a next question continues the session; a
/// terminal signal with no lives left restarts a fresh session for the
/// same episode; a terminal signal with lives to spare means the question
/// pool is exhausted, and the whole program stops.
pub fn next_step(advance: Advance) -> (r: SessionStep)
    ensures
        advance matches Advance::Next(id) ==> r == SessionStep::Continue(id),
        advance matches Advance::Terminal(lives) && lives == 0 ==> r == SessionStep::Restart,
        advance matches Advance::Terminal(lives) && lives != 0 ==> r == SessionStep::Stop,
{
    match advance {
        Advance::Next(id) => SessionStep::Continue(id),
        Advance::Terminal(lives) => {
            if lives == 0 {
                SessionStep::Restart
            } else {
                SessionStep::Stop
            }
        },
    }
}

} // verus!
