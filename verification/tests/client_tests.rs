use quizbot::client::{
    answer_body, answer_headers, game_body, game_headers, parse_answer_response,
    parse_start_response,
};
use quizbot::errors::GameError;
use quizbot::session::Advance;

#[test]
fn answer_body_quotes_the_text() {
    assert_eq!(answer_body("Madrid").as_str(), "{\"answer\":\"Madrid\"}");
}

#[test]
fn answer_body_escapes_special_characters() {
    assert_eq!(answer_body("a\"b\\c").as_str(), "{\"answer\":\"a\\\"b\\\\c\"}");
}

#[test]
fn game_body_carries_the_episode_number() {
    assert_eq!(game_body(3).as_str(), "{\"gameId\":3}");
    assert_eq!(game_body(6).as_str(), "{\"gameId\":6}");
}

#[test]
fn start_response_yields_first_question_and_default() {
    let body = "{\"stateData\":{\"question\":{\"id\":10,\"answers\":[\"Rome\",\"Paris\"]},\"points\":0,\"livesLeft\":3}}";
    let info = parse_start_response(body).unwrap();
    assert_eq!(info.question_id, 10);
    assert_eq!(info.default_answer.as_str(), "Rome");
}

#[test]
fn start_response_of_the_wrong_shape_is_a_protocol_error() {
    assert_eq!(parse_start_response("not json").unwrap_err(), GameError::ProtocolError);
    assert_eq!(parse_start_response("{}").unwrap_err(), GameError::ProtocolError);
    let no_answers = "{\"stateData\":{\"question\":{\"id\":10,\"answers\":[]}}}";
    assert_eq!(parse_start_response(no_answers).unwrap_err(), GameError::ProtocolError);
}

#[test]
fn answer_response_with_a_next_question_continues() {
    let body = "{\"isCorrect\":true,\"stateData\":{\"points\":50,\"question\":{\"id\":11,\"answers\":[\"x\"]}}}";
    let outcome = parse_answer_response(body).unwrap();
    assert!(outcome.is_correct);
    assert_eq!(outcome.points, 50);
    assert_eq!(outcome.advance, Advance::Next(11));
    assert!(outcome.correct_answer.is_none());
}

#[test]
fn answer_response_without_a_question_is_terminal() {
    let body = "{\"isCorrect\":false,\"correctAnswer\":\"Rome\",\"stateData\":{\"points\":50,\"livesLeft\":0}}";
    let outcome = parse_answer_response(body).unwrap();
    assert!(!outcome.is_correct);
    assert_eq!(outcome.correct_answer.unwrap().as_str(), "Rome");
    assert_eq!(outcome.advance, Advance::Terminal(0));
}

#[test]
fn answer_response_of_the_wrong_shape_is_a_protocol_error() {
    assert_eq!(parse_answer_response("[]").unwrap_err(), GameError::ProtocolError);
    let missing_points = "{\"isCorrect\":true,\"stateData\":{\"livesLeft\":2}}";
    assert_eq!(parse_answer_response(missing_points).unwrap_err(), GameError::ProtocolError);
}

#[test]
fn header_tables_end_with_the_cookie() {
    let cookie = "session-cookie".to_string();
    let game = game_headers(&cookie);
    assert_eq!(game.len(), 14);
    assert_eq!(game[3].0.as_str(), "Content-Length");
    assert_eq!(game[13].0.as_str(), "Cookie");
    assert_eq!(game[13].1.as_str(), cookie.as_str());
    let answer = answer_headers(&cookie);
    assert_eq!(answer.len(), 13);
    assert_eq!(answer[12].0.as_str(), "Cookie");
    assert_eq!(answer[12].1.as_str(), cookie.as_str());
}
