use quizbot::codec::{encode_line, format_int, format_unsigned, parse_int, parse_line};

#[test]
fn parses_a_plain_record() {
    let (id, answer) = parse_line("1 Paris").unwrap();
    assert_eq!(id, 1);
    assert_eq!(answer.as_str(), "Paris");
}

#[test]
fn answer_text_may_contain_spaces() {
    let (id, answer) = parse_line("12 New York City").unwrap();
    assert_eq!(id, 12);
    assert_eq!(answer.as_str(), "New York City");
}

#[test]
fn negative_ids_round_trip() {
    let (id, answer) = parse_line("-3 x").unwrap();
    assert_eq!(id, -3);
    assert_eq!(answer.as_str(), "x");
}

#[test]
fn empty_answer_text_is_kept() {
    let (id, answer) = parse_line("4 ").unwrap();
    assert_eq!(id, 4);
    assert_eq!(answer.as_str(), "");
}

#[test]
fn lines_without_a_space_are_malformed() {
    assert!(parse_line("12").is_none());
    assert!(parse_line("").is_none());
}

#[test]
fn lines_with_a_non_numeric_id_are_malformed() {
    assert!(parse_line("not-a-number Oops").is_none());
    assert!(parse_line(" leading space").is_none());
    assert!(parse_line("- dash only").is_none());
    assert!(parse_line("1x2 text").is_none());
}

#[test]
fn ids_outside_the_integer_range_are_malformed() {
    assert!(parse_line("9223372036854775808 over").is_none());
    assert!(parse_line("-9223372036854775809 under").is_none());
    let (id, _) = parse_line("9223372036854775807 max").unwrap();
    assert_eq!(id, i64::MAX);
    let (id, _) = parse_line("-9223372036854775808 min").unwrap();
    assert_eq!(id, i64::MIN);
}

#[test]
fn parse_int_handles_signs_and_limits() {
    assert_eq!(parse_int("0"), Some(0));
    assert_eq!(parse_int("-987"), Some(-987));
    assert_eq!(parse_int("+42"), Some(42));
    assert_eq!(parse_int("0042"), Some(42));
    assert_eq!(parse_int(""), None);
    assert_eq!(parse_int("-"), None);
    assert_eq!(parse_int("+"), None);
    assert_eq!(parse_int("+-1"), None);
    assert_eq!(parse_int("12a"), None);
}

#[test]
fn a_plus_sign_on_the_id_is_accepted() {
    let (id, answer) = parse_line("+5 Foo").unwrap();
    assert_eq!(id, 5);
    assert_eq!(answer.as_str(), "Foo");
    assert!(parse_line("+ plus only").is_none());
}

#[test]
fn formats_decimals() {
    assert_eq!(format_unsigned(0).as_str(), "0");
    assert_eq!(format_unsigned(12345).as_str(), "12345");
    assert_eq!(format_int(-987).as_str(), "-987");
    assert_eq!(format_int(i64::MIN).as_str(), "-9223372036854775808");
    assert_eq!(format_int(i64::MAX).as_str(), "9223372036854775807");
}

#[test]
fn answers_beyond_ascii_round_trip() {
    let line = encode_line(2, "Москва");
    assert_eq!(line.as_str(), "2 Москва");
    let (id, answer) = parse_line(line.as_str()).unwrap();
    assert_eq!(id, 2);
    assert_eq!(answer.as_str(), "Москва");
}

#[test]
fn encoded_lines_parse_back() {
    let line = encode_line(7, "Sherlock Holmes");
    assert_eq!(line.as_str(), "7 Sherlock Holmes");
    let (id, answer) = parse_line(line.as_str()).unwrap();
    assert_eq!(id, 7);
    assert_eq!(answer.as_str(), "Sherlock Holmes");
}
