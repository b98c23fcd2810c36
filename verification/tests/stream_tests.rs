use cr_bot::stream::{
    choice_texts, consume_fragments, resolve_model_name, StreamError, COMPLETION_TOKENS,
};

#[test]
fn scenario_stream_error_preserves_flushed_text() {
    let fragments: Vec<Result<String, String>> = vec![
        Ok(String::from("Hel")),
        Ok(String::from("lo")),
        Err(String::from("connection reset")),
    ];
    let out = consume_fragments(fragments);
    assert_eq!(out.written, "Hello");
    let failure = out.failure.expect("the run must report failure");
    assert_eq!(failure.0, "connection reset");
    assert_eq!(failure.message(), "Stream error: connection reset");
}

#[test]
fn error_halts_before_later_fragments() {
    let fragments: Vec<Result<String, String>> = vec![
        Ok(String::from("a")),
        Err(String::from("boom")),
        Ok(String::from("b")),
    ];
    let out = consume_fragments(fragments);
    assert_eq!(out.written, "a");
    assert_eq!(out.failure.unwrap().0, "boom");
}

#[test]
fn only_the_first_error_is_reported() {
    let fragments: Vec<Result<String, String>> = vec![
        Err(String::from("first")),
        Err(String::from("second")),
        Ok(String::from("late")),
    ];
    let out = consume_fragments(fragments);
    assert_eq!(out.written, "");
    assert_eq!(out.failure.unwrap().0, "first");
}

#[test]
fn clean_stream_is_written_whole() {
    let fragments: Vec<Result<String, String>> =
        vec![Ok(String::from("one ")), Ok(String::from("two"))];
    let out = consume_fragments(fragments);
    assert_eq!(out.written, "one two");
    assert!(out.failure.is_none());
}

#[test]
fn empty_stream_writes_nothing() {
    let out = consume_fragments(Vec::new());
    assert_eq!(out.written, "");
    assert!(out.failure.is_none());
}

#[test]
fn immediate_error_writes_nothing() {
    let out = consume_fragments(vec![Err(String::from("reset"))]);
    assert_eq!(out.written, "");
    assert_eq!(out.failure.unwrap().0, "reset");
}

#[test]
fn choice_texts_keeps_slot_order_and_drops_empty_slots() {
    let choices = vec![
        Some(String::from("a")),
        None,
        Some(String::from("b")),
        None,
    ];
    assert_eq!(choice_texts(choices), vec!["a", "b"]);
    assert_eq!(choice_texts(vec![None, None]), Vec::<String>::new());
}

#[test]
fn model_name_override_wins_else_default() {
    assert_eq!(resolve_model_name(Some(String::from("my-model"))), "my-model");
    assert_eq!(resolve_model_name(None), "gpt-4o-mini");
}

#[test]
fn token_budget_is_fixed() {
    assert_eq!(COMPLETION_TOKENS, 1024);
}

#[test]
fn stream_error_wraps_description() {
    let e = StreamError(String::from("timed out"));
    assert_eq!(e.message(), "Stream error: timed out");
}
