use clip_translate::capture::{fallback_outcome, is_new_text, CaptureOutcome};
use clip_translate::clipboard_manager::SmartClipboard;

#[test]
fn restore_without_save_writes_nothing() {
    let cb = SmartClipboard::new();
    assert!(cb.restore_clipboard().is_none());
    assert!(cb.restore_clipboard().is_none());
}

#[test]
fn save_keeps_non_empty_text() {
    let mut cb = SmartClipboard::new();
    assert!(cb.save_clipboard(Ok("old-value".to_string())).is_ok());
    assert_eq!(cb.restore_clipboard(), Some("old-value".to_string()));
    assert_eq!(cb.restore_clipboard(), Some("old-value".to_string()));
    assert_eq!(cb.saved(), Some("old-value".to_string()));
}

#[test]
fn save_of_empty_or_failed_read_keeps_nothing() {
    let mut cb = SmartClipboard::new();
    cb.save_clipboard(Ok("x".to_string())).unwrap();
    cb.save_clipboard(Ok(String::new())).unwrap();
    assert!(cb.restore_clipboard().is_none());
    cb.save_clipboard(Ok("x".to_string())).unwrap();
    assert!(cb.save_clipboard(Err("denied".to_string())).is_ok());
    assert!(cb.restore_clipboard().is_none());
}

#[test]
fn new_text_must_differ_and_hold_more_than_whitespace() {
    let snap = Some("old-value".to_string());
    assert!(is_new_text("selected", &snap));
    assert!(!is_new_text("old-value", &snap));
    assert!(!is_new_text("   \n", &snap));
    assert!(!is_new_text("", &None));
    assert!(is_new_text("こんにちは", &None));
    // surrounding whitespace makes it a different text
    assert!(is_new_text(" old-value", &snap));
}

#[test]
fn fallback_needs_more_than_five_trimmed_chars() {
    match fallback_outcome(&Some("old-value".to_string())) {
        CaptureOutcome::FallbackClipboard(t) => assert_eq!(t, "old-value"),
        _ => panic!("expected the clipboard text"),
    }
    assert!(matches!(fallback_outcome(&Some("hi".to_string())), CaptureOutcome::NoSelection));
    assert!(matches!(fallback_outcome(&Some("  12345  ".to_string())), CaptureOutcome::NoSelection));
    assert!(matches!(fallback_outcome(&None), CaptureOutcome::NoSelection));
    match fallback_outcome(&Some(" 123456 ".to_string())) {
        CaptureOutcome::FallbackClipboard(t) => assert_eq!(t, " 123456 "),
        _ => panic!("expected the clipboard text"),
    }
    // five characters, fifteen bytes: the threshold counts characters
    assert!(matches!(fallback_outcome(&Some("こんにちは".to_string())), CaptureOutcome::NoSelection));
}

#[test]
fn outcome_gives_copy_result() {
    let r = CaptureOutcome::NewSelection("abc".to_string()).into_copy_result();
    assert_eq!(r.unwrap().text, "abc");
    let r = CaptureOutcome::FallbackClipboard("old-value".to_string()).into_copy_result();
    assert_eq!(r.unwrap().text, "old-value");
    assert!(CaptureOutcome::NoSelection.into_copy_result().is_none());
}
