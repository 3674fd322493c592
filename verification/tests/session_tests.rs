use quizbot::errors::GameError;
use quizbot::session::{apply_outcome, choose_answer, next_step, Advance, AnswerOutcome, SessionStep};
use quizbot::store::AnswerStore;

#[test]
fn empty_store_submits_the_default_as_a_guess() {
    let store = AnswerStore::new();
    let (answer, known) = choose_answer(&store, 5, &"Rome".to_string());
    assert_eq!(answer.as_str(), "Rome");
    assert!(!known);
}

#[test]
fn stored_answer_is_submitted_as_known() {
    let mut store = AnswerStore::new();
    store.record(5, "Rome".to_string());
    let (answer, known) = choose_answer(&store, 5, &"Paris".to_string());
    assert_eq!(answer.as_str(), "Rome");
    assert!(known);
}

#[test]
fn correct_guess_is_persisted() {
    let mut store = AnswerStore::new();
    let outcome = AnswerOutcome {
        is_correct: true,
        correct_answer: None,
        points: 100,
        advance: Advance::Next(6),
    };
    let line = apply_outcome(&mut store, 5, &"Rome".to_string(), false, &outcome).unwrap();
    assert_eq!(line.unwrap().as_str(), "5 Rome");
    assert_eq!(store.len(), 1);
    assert_eq!(store.get(5).unwrap().as_str(), "Rome");
}

#[test]
fn correct_known_answer_changes_nothing() {
    let mut store = AnswerStore::new();
    store.record(5, "Rome".to_string());
    let outcome = AnswerOutcome {
        is_correct: true,
        correct_answer: None,
        points: 100,
        advance: Advance::Next(6),
    };
    let line = apply_outcome(&mut store, 5, &"Rome".to_string(), true, &outcome).unwrap();
    assert!(line.is_none());
    assert_eq!(store.len(), 1);
}

#[test]
fn incorrect_answer_records_the_correction() {
    let mut store = AnswerStore::new();
    store.record(7, "Lisbon".to_string());
    let outcome = AnswerOutcome {
        is_correct: false,
        correct_answer: Some("Madrid".to_string()),
        points: 0,
        advance: Advance::Next(8),
    };
    let line = apply_outcome(&mut store, 7, &"Lisbon".to_string(), true, &outcome).unwrap();
    assert_eq!(line.unwrap().as_str(), "7 Madrid");
    assert_eq!(store.len(), 1);
    assert_eq!(store.get(7).unwrap().as_str(), "Madrid");
}

#[test]
fn incorrect_answer_without_correction_is_a_protocol_error() {
    let mut store = AnswerStore::new();
    let outcome = AnswerOutcome {
        is_correct: false,
        correct_answer: None,
        points: 0,
        advance: Advance::Terminal(0),
    };
    let r = apply_outcome(&mut store, 7, &"Lisbon".to_string(), false, &outcome);
    assert_eq!(r.unwrap_err(), GameError::ProtocolError);
    assert_eq!(store.len(), 0);
}

#[test]
fn exhausted_lives_restart_the_session() {
    assert_eq!(next_step(Advance::Terminal(0)), SessionStep::Restart);
}

#[test]
fn spare_lives_with_no_question_stop_the_program() {
    assert_eq!(next_step(Advance::Terminal(3)), SessionStep::Stop);
}

#[test]
fn a_next_question_continues_the_session() {
    assert_eq!(next_step(Advance::Next(9)), SessionStep::Continue(9));
}
