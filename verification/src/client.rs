//! The boundary with the remote quiz API: the request bodies and header
//! tables each call is made with, and the decoding of the two JSON
//! responses into the plain structures the session logic works on. The
//! network transport itself stays outside the library; it hands response
//! text in and takes request text out.

use vstd::prelude::*;
use vstd::string::*;
use crate::codec::{format_int, int_digits_spec};
use crate::errors::GameError;
use crate::session::{Advance, AnswerOutcome, StartInfo};

verus! {

/// What serde_json's string serializer returns for a text: the quoted,
/// escaped JSON form. A function of the characters alone.
pub uninterp spec fn json_quoted(s: Seq<char>) -> Seq<char>;

/// Relies on serde_json::to_string on a string slice: deterministic JSON
/// quoting and escaping of the text, depending on the characters alone.
/// Serializing a string into a string buffer cannot fail.
#[verifier::external_body]
fn json_encode_str(s: &str) -> (r: String)
    ensures
        r@ == json_quoted(s@),
{
    serde_json::to_string(s).unwrap()
}

/// Builds the body of an answer submission: `{"answer":` followed by the
/// quoted answer text and a closing brace.
pub fn answer_body(answer: &str) -> (r: String)
    ensures
        r@ == "{\"answer\":"@ + json_quoted(answer@) + "}"@,
{
    let mut s = "{\"answer\":".to_owned();
    s.append(json_encode_str(answer).as_str());
    s.append("}");
    proof {
        assert(s@ =~= "{\"answer\":"@ + json_quoted(answer@) + "}"@);
    }
    s
}

/// Builds the body of a session start: `{"gameId":` followed by the
/// episode number and a closing brace.
pub fn game_body(episode: i64) -> (r: String)
    ensures
        r@ == "{\"gameId\":"@ + int_digits_spec(episode) + "}"@,
{
    let mut s = "{\"gameId\":".to_owned();
    s.append(format_int(episode).as_str());
    s.append("}");
    proof {
        assert(s@ =~= "{\"gameId\":"@ + int_digits_spec(episode) + "}"@);
    }
    s
}

/// The header table of a session-start request: the fixed browser-like
/// pairs, with the session cookie as the last entry.
pub fn game_headers(cookie: &String) -> (r: Vec<(String, String)>)
    ensures
        r@.len() == 14,
        (r@[0].0)@ == "Accept"@ && (r@[0].1)@ == "application/json, text/plain, */*"@,
        (r@[1].0)@ == "Accept-Language"@ && (r@[1].1)@ == "en-US,en;q=0.9,ru;q=0.8"@,
        (r@[2].0)@ == "Connection"@ && (r@[2].1)@ == "keep-alive"@,
        (r@[3].0)@ == "Content-Length"@ && (r@[3].1)@ == "12"@,
        (r@[4].0)@ == "Content-Type"@ && (r@[4].1)@ == "application/json"@,
        (r@[5].0)@ == "Host"@ && (r@[5].1)@ == "kp-guess-game-api.kinopoisk.ru"@,
        (r@[6].0)@ == "Origin"@ && (r@[6].1)@ == "https://www.kinopoisk.ru"@,
        (r@[7].0)@ == "Referer"@ && (r@[7].1)@ == "https://www.kinopoisk.ru/"@,
        (r@[8].0)@ == "Sec-Fetch-Dest"@ && (r@[8].1)@ == "empty"@,
        (r@[9].0)@ == "Sec-Fetch-Mode"@ && (r@[9].1)@ == "cors"@,
        (r@[10].0)@ == "Sec-Fetch-Site"@ && (r@[10].1)@ == "same-site"@,
        (r@[11].0)@ == "sec-ch-ua-mobile"@ && (r@[11].1)@ == "?0"@,
        (r@[12].0)@ == "sec-ch-ua-platform"@ && (r@[12].1)@ == "Windows"@,
        (r@[13].0)@ == "Cookie"@ && (r@[13].1)@ == cookie@,
{
    let mut r: Vec<(String, String)> = Vec::new();
    r.push(("Accept".to_owned(), "application/json, text/plain, */*".to_owned()));
    r.push(("Accept-Language".to_owned(), "en-US,en;q=0.9,ru;q=0.8".to_owned()));
    r.push(("Connection".to_owned(), "keep-alive".to_owned()));
    r.push(("Content-Length".to_owned(), "12".to_owned()));
    r.push(("Content-Type".to_owned(), "application/json".to_owned()));
    r.push(("Host".to_owned(), "kp-guess-game-api.kinopoisk.ru".to_owned()));
    r.push(("Origin".to_owned(), "https://www.kinopoisk.ru".to_owned()));
    r.push(("Referer".to_owned(), "https://www.kinopoisk.ru/".to_owned()));
    r.push(("Sec-Fetch-Dest".to_owned(), "empty".to_owned()));
    r.push(("Sec-Fetch-Mode".to_owned(), "cors".to_owned()));
    r.push(("Sec-Fetch-Site".to_owned(), "same-site".to_owned()));
    r.push(("sec-ch-ua-mobile".to_owned(), "?0".to_owned()));
    r.push(("sec-ch-ua-platform".to_owned(), "Windows".to_owned()));
    r.push(("Cookie".to_owned(), cookie.clone()));
    r
}

/// The header table of an answer submission: the same fixed pairs except
/// the content length, with the session cookie as the last entry.
pub fn answer_headers(cookie: &String) -> (r: Vec<(String, String)>)
    ensures
        r@.len() == 13,
        (r@[0].0)@ == "Accept"@ && (r@[0].1)@ == "application/json, text/plain, */*"@,
        (r@[1].0)@ == "Accept-Language"@ && (r@[1].1)@ == "en-US,en;q=0.9,ru;q=0.8"@,
        (r@[2].0)@ == "Connection"@ && (r@[2].1)@ == "keep-alive"@,
        (r@[3].0)@ == "Content-Type"@ && (r@[3].1)@ == "application/json"@,
        (r@[4].0)@ == "Host"@ && (r@[4].1)@ == "kp-guess-game-api.kinopoisk.ru"@,
        (r@[5].0)@ == "Origin"@ && (r@[5].1)@ == "https://www.kinopoisk.ru"@,
        (r@[6].0)@ == "Referer"@ && (r@[6].1)@ == "https://www.kinopoisk.ru/"@,
        (r@[7].0)@ == "Sec-Fetch-Dest"@ && (r@[7].1)@ == "empty"@,
        (r@[8].0)@ == "Sec-Fetch-Mode"@ && (r@[8].1)@ == "cors"@,
        (r@[9].0)@ == "Sec-Fetch-Site"@ && (r@[9].1)@ == "same-site"@,
        (r@[10].0)@ == "sec-ch-ua-mobile"@ && (r@[10].1)@ == "?0"@,
        (r@[11].0)@ == "sec-ch-ua-platform"@ && (r@[11].1)@ == "Windows"@,
        (r@[12].0)@ == "Cookie"@ && (r@[12].1)@ == cookie@,
{
    let mut r: Vec<(String, String)> = Vec::new();
    r.push(("Accept".to_owned(), "application/json, text/plain, */*".to_owned()));
    r.push(("Accept-Language".to_owned(), "en-US,en;q=0.9,ru;q=0.8".to_owned()));
    r.push(("Connection".to_owned(), "keep-alive".to_owned()));
    r.push(("Content-Type".to_owned(), "application/json".to_owned()));
    r.push(("Host".to_owned(), "kp-guess-game-api.kinopoisk.ru".to_owned()));
    r.push(("Origin".to_owned(), "https://www.kinopoisk.ru".to_owned()));
    r.push(("Referer".to_owned(), "https://www.kinopoisk.ru/".to_owned()));
    r.push(("Sec-Fetch-Dest".to_owned(), "empty".to_owned()));
    r.push(("Sec-Fetch-Mode".to_owned(), "cors".to_owned()));
    r.push(("Sec-Fetch-Site".to_owned(), "same-site".to_owned()));
    r.push(("sec-ch-ua-mobile".to_owned(), "?0".to_owned()));
    r.push(("sec-ch-ua-platform".to_owned(), "Windows".to_owned()));
    r.push(("Cookie".to_owned(), cookie.clone()));
    r
}

/// What the session-start response decodes to: the first question's id
/// and the API's default answer for it, or nothing when the body is not
/// of that shape. A function of the body text alone.
pub uninterp spec fn start_decode(body: Seq<char>) -> Option<(i64, Seq<char>)>;

/// Relies on serde_json parsing of the session-start response: the first
/// question's id stands at stateData.question.id and its suggested
/// answers at stateData.question.answers, of which the first is the
/// API's default. Any missing or differently typed field yields None.
/// Parsing is deterministic, so the result is `start_decode` of the body.
#[verifier::external_body]
fn decode_start(body: &str) -> (r: Option<StartInfo>)
    ensures
        match r {
            Some(info) => start_decode(body@) == Some((info.question_id, info.default_answer@)),
            None => start_decode(body@) is None,
        },
{
    let v: serde_json::Value = serde_json::from_str(body).ok()?;
    let q = v.get("stateData")?.get("question")?;
    let question_id = q.get("id")?.as_i64()?;
    let default_answer = q.get("answers")?.as_array()?.first()?.as_str()?.to_owned();
    Some(StartInfo { question_id, default_answer })
}

/// Decodes the session-start response: exactly the bodies that decode to
/// a first question succeed, and a response of the wrong shape is a
/// protocol error.
pub fn parse_start_response(body: &str) -> (r: Result<StartInfo, GameError>)
    ensures
        r is Ok <==> start_decode(body@) is Some,
        r matches Ok(info) ==> start_decode(body@) == Some(
            (info.question_id, info.default_answer@),
        ),
        r matches Err(e) ==> e == GameError::ProtocolError,
{
    match decode_start(body) {
        Some(info) => Ok(info),
        None => Err(GameError::ProtocolError),
    }
}

/// What the answer response decodes to: correctness, the reported
/// correct answer (when it is a string), the score, and how the session
/// advances, or nothing when the body is not of that shape. A function
/// of the body text alone.
pub uninterp spec fn answer_decode(body: Seq<char>) -> Option<
    (bool, Option<Seq<char>>, i64, Advance),
>;

/// Relies on serde_json parsing of the answer response: correctness at
/// isCorrect, the reported correct answer at correctAnswer (taken only
/// when it is a string), the score at stateData.points, and either
/// stateData.question.id as the next question or stateData.livesLeft as
/// the terminal signal. Any other shape yields None.
/// Parsing is deterministic, so the result is `answer_decode` of the body.
#[verifier::external_body]
fn decode_answer(body: &str) -> (r: Option<AnswerOutcome>)
    ensures
        match r {
            Some(o) => answer_decode(body@) == Some(
                (o.is_correct, o.correct_answer.deep_view(), o.points, o.advance),
            ),
            None => answer_decode(body@) is None,
        },
{
    let v: serde_json::Value = serde_json::from_str(body).ok()?;
    let state = v.get("stateData")?;
    let is_correct = v.get("isCorrect")?.as_bool()?;
    let correct_answer = v.get("correctAnswer").and_then(|c| c.as_str()).map(str::to_owned);
    let points = state.get("points")?.as_i64()?;
    let advance = match state.get("question") {
        Some(q) => Advance::Next(q.get("id")?.as_i64()?),
        None => Advance::Terminal(state.get("livesLeft")?.as_i64()?),
    };
    Some(AnswerOutcome { is_correct, correct_answer, points, advance })
}

/// Decodes the answer response: exactly the bodies that decode to an
/// outcome succeed, and a response of the wrong shape is a protocol
/// error.
pub fn parse_answer_response(body: &str) -> (r: Result<AnswerOutcome, GameError>)
    ensures
        r is Ok <==> answer_decode(body@) is Some,
        r matches Ok(o) ==> answer_decode(body@) == Some(
            (o.is_correct, o.correct_answer.deep_view(), o.points, o.advance),
        ),
        r matches Err(e) ==> e == GameError::ProtocolError,
{
    match decode_answer(body) {
        Some(outcome) => Ok(outcome),
        None => Err(GameError::ProtocolError),
    }
}

} // verus!
