use codex_loop::text::{decimal_text, ends_with_newline, same_text, signed_decimal_text};

#[test]
fn writes_numbers() {
    for n in [0, 7, 10, 99, 100, 12345, u64::MAX] {
        assert_eq!(decimal_text(n), format!("{}", n));
    }
    for i in [0, 1, -1, 42, -100, i32::MAX, i32::MIN] {
        assert_eq!(signed_decimal_text(i), format!("{}", i));
    }
}

#[test]
fn compares_text() {
    assert!(same_text("", ""));
    assert!(same_text("error", "error"));
    assert!(!same_text("error", "errors"));
    assert!(ends_with_newline("a\n"));
    assert!(!ends_with_newline("\na"));
    assert!(!ends_with_newline(""));
}
