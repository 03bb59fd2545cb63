use unwrap_none::{expect_none_failed, unwrap_none_failure_message, UnwrapNone};

#[test]
fn empty_expect_none_returns_normally() {
    let squares: Option<i32> = None;
    squares.expect_none("duplicate key");
    let names: Option<String> = None;
    names.expect_none("");
}

#[test]
fn empty_unwrap_none_returns_normally() {
    let previous: Option<i32> = None;
    previous.unwrap_none();
}

#[test]
fn empty_or_else_never_invokes_handler() {
    let mut calls: u32 = 0;
    let previous: Option<i32> = None;
    previous.unwrap_none_or_else(|_v| calls += 1);
    assert_eq!(calls, 0);
}

#[test]
fn present_or_else_invokes_handler_once_with_value() {
    let mut calls: u32 = 0;
    let mut recorded: Option<&str> = None;
    let held: Option<&str> = Some("x");
    held.unwrap_none_or_else(|v| {
        calls += 1;
        recorded = Some(v);
    });
    assert_eq!(calls, 1);
    assert_eq!(recorded, Some("x"));
}

#[test]
fn failure_text_joins_message_and_rendering() {
    let text = expect_none_failed("duplicate key", "5");
    assert_eq!(text, "duplicate key: 5");
}

#[test]
fn failure_text_keeps_message_and_rendering_whole() {
    let text = expect_none_failed("expected no earlier entry", "Entry { id: 7 }");
    assert!(text.starts_with("expected no earlier entry"));
    assert!(text.ends_with("Entry { id: 7 }"));
    assert_eq!(
        text.len(),
        "expected no earlier entry".len() + 2 + "Entry { id: 7 }".len()
    );
}

#[test]
fn unwrap_none_message_is_fixed() {
    assert_eq!(
        unwrap_none_failure_message(),
        "called unwrap_none on a value that was present"
    );
    let text = expect_none_failed(unwrap_none_failure_message(), "5");
    assert_eq!(text, "called unwrap_none on a value that was present: 5");
}

#[test]
fn empty_message_still_separates() {
    let text = expect_none_failed("", "true");
    assert_eq!(text, ": true");
}
