use oxker::app_data::json_log_formatter::{json_formatter, message_text, try_json_formatter};

#[test]
/// Get mut container by id
fn test_json_formatter() {
    let formatted_log = json_formatter("{\"message\":\"LOG MESSAGE CONTENTS\",\"level\":\"WARNING\",\"timestamp_iso\":\"2024-04-19T13:36:09.089736-04:00\"}");
    println!("{formatted_log}");
    assert_eq!(formatted_log, "LOG MESSAGE CONTENTS");
}

#[test]
fn json_formatter_without_message_shows_the_notice() {
    assert_eq!(json_formatter("{\"level\":\"INFO\"}"), "Invalid Format:: <PUT log_json>");
}

#[test]
fn json_formatter_of_a_value_that_is_no_object_shows_the_notice() {
    assert_eq!(json_formatter("[1, 2, 3]"), "Invalid Format:: <PUT log_json>");
    assert_eq!(json_formatter("\"message\""), "Invalid Format:: <PUT log_json>");
}

#[test]
fn json_formatter_with_message_that_is_no_string_shows_nothing() {
    assert_eq!(json_formatter("{\"message\": 42}"), "");
    assert_eq!(json_formatter("{\"message\": null}"), "");
    assert_eq!(json_formatter("{\"message\": {\"message\": \"inner\"}}"), "");
}

#[test]
fn json_formatter_unescapes_the_message() {
    assert_eq!(json_formatter("{\"message\": \"a\\n\\\"b\\\"\"}"), "a\n\"b\"");
}

#[test]
fn try_json_formatter_gives_the_message() {
    assert_eq!(
        try_json_formatter("{\"message\":\"hello\"}"),
        Some("hello".to_owned())
    );
    assert_eq!(
        try_json_formatter("{}"),
        Some("Invalid Format:: <PUT log_json>".to_owned())
    );
}

#[test]
fn try_json_formatter_refuses_what_is_no_json() {
    assert_eq!(try_json_formatter("not json"), None);
    assert_eq!(try_json_formatter(""), None);
    assert_eq!(try_json_formatter("{\"message\": \"open"), None);
}

#[test]
fn message_text_for_each_outcome() {
    assert_eq!(message_text(Some(Some("text".to_owned()))), "text");
    assert_eq!(message_text(Some(None)), "");
    assert_eq!(message_text(None), "Invalid Format:: <PUT log_json>");
}
