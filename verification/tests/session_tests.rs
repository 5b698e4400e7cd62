use save_editor::numbers::{parse_u64, u64_to_dec, ParseError};
use save_editor::numeric_field_editor::{
    NumericFieldEditorInit, NumericFieldEditorMessage, NumericFieldEditorState,
};

fn open_session(value: u64, original: u64) -> NumericFieldEditorState<u32> {
    NumericFieldEditorState::new(NumericFieldEditorInit {
        name: String::from("Total Diamonds"),
        value,
        original,
        target: 7u32,
    })
}

#[test]
fn session_opens_with_rendered_value_and_no_error() {
    let st = open_session(250, 100);
    assert_eq!(st.input, "250");
    assert_eq!(st.value, 250);
    assert_eq!(st.original, 100);
    assert_eq!(st.target, 7);
    assert!(st.error.is_none());
}

#[test]
fn non_numeric_input_sets_error_and_keeps_staged_value() {
    let mut st = open_session(250, 100);
    let commit = st.update(NumericFieldEditorMessage::EditInput(String::from("12a")));
    assert!(commit.is_none());
    assert_eq!(st.input, "12a");
    assert_eq!(st.value, 250);
    let err = st.error.as_ref().expect("a validation error is recorded");
    assert!(!err.is_empty());
}

#[test]
fn valid_input_after_error_clears_it_and_stages() {
    let mut st = open_session(250, 100);
    st.update(NumericFieldEditorMessage::EditInput(String::from("12a")));
    assert!(st.error.is_some());
    st.update(NumericFieldEditorMessage::EditInput(String::from("42")));
    assert!(st.error.is_none());
    assert_eq!(st.value, 42);
    assert_eq!(st.input, "42");
}

#[test]
fn save_while_error_present_returns_no_commit() {
    let mut st = open_session(250, 100);
    st.update(NumericFieldEditorMessage::EditInput(String::from("12a")));
    let commit = st.update(NumericFieldEditorMessage::Save);
    assert!(commit.is_none());
    // the session is untouched: the error still blocks, the draft stays
    assert!(st.error.is_some());
    assert_eq!(st.value, 250);
}

#[test]
fn save_while_valid_returns_the_staged_value() {
    let mut st = open_session(250, 100);
    st.update(NumericFieldEditorMessage::EditInput(String::from("42")));
    let commit = st.update(NumericFieldEditorMessage::Save);
    assert_eq!(commit, Some(42));
    assert_eq!(st.target, 7);
}

#[test]
fn empty_and_sign_only_inputs_are_rejected() {
    let mut st = open_session(3, 3);
    st.update(NumericFieldEditorMessage::EditInput(String::from("")));
    assert!(st.error.is_some());
    assert_eq!(st.value, 3);
    st.update(NumericFieldEditorMessage::EditInput(String::from("+")));
    assert!(st.error.is_some());
    assert_eq!(st.value, 3);
}

#[test]
fn overflowing_input_is_rejected() {
    let mut st = open_session(3, 3);
    st.update(NumericFieldEditorMessage::EditInput(String::from(
        "18446744073709551616",
    )));
    assert!(st.error.is_some());
    assert_eq!(st.value, 3);
    st.update(NumericFieldEditorMessage::EditInput(String::from(
        "18446744073709551615",
    )));
    assert!(st.error.is_none());
    assert_eq!(st.value, u64::MAX);
}

#[test]
fn parse_accepts_plus_sign_and_leading_zeros() {
    assert_eq!(parse_u64("+7"), Ok(7));
    assert_eq!(parse_u64("0042"), Ok(42));
    assert_eq!(parse_u64("0"), Ok(0));
}

#[test]
fn parse_reports_the_exact_failure() {
    assert_eq!(parse_u64(""), Err(ParseError::Empty));
    assert_eq!(parse_u64("+"), Err(ParseError::Empty));
    assert_eq!(parse_u64("12a"), Err(ParseError::InvalidDigit));
    assert_eq!(parse_u64(" 1"), Err(ParseError::InvalidDigit));
    assert_eq!(parse_u64("-1"), Err(ParseError::InvalidDigit));
    assert_eq!(parse_u64("18446744073709551616"), Err(ParseError::TooLarge));
}

#[test]
fn decimal_rendering_round_trips() {
    assert_eq!(u64_to_dec(0), "0");
    assert_eq!(u64_to_dec(10), "10");
    assert_eq!(u64_to_dec(18446744073709551615), "18446744073709551615");
    for n in [0u64, 1, 9, 10, 99, 100, 123456789, u64::MAX] {
        assert_eq!(parse_u64(&u64_to_dec(n)), Ok(n));
    }
}
