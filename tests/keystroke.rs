use clip_translate::error::TranslateError;
use clip_translate::keystroke::{copy_keystrokes, CopyKey, KeyStep};
use clip_translate::transaction::CaptureTiming;

#[test]
fn mac_copy_uses_command() {
    let steps = copy_keystrokes(true, CaptureTiming::standard());
    assert_eq!(
        steps,
        vec![
            KeyStep::Wait(50),
            KeyStep::Press(CopyKey::Meta),
            KeyStep::Press(CopyKey::C),
            KeyStep::Wait(10),
            KeyStep::Release(CopyKey::C),
            KeyStep::Release(CopyKey::Meta),
        ]
    );
}

#[test]
fn other_platforms_copy_with_control() {
    let timing = CaptureTiming { pre_delay_ms: 7, hold_ms: 3, first_settle_ms: 1, second_settle_ms: 2 };
    let steps = copy_keystrokes(false, timing);
    assert_eq!(steps[0], KeyStep::Wait(7));
    assert_eq!(steps[1], KeyStep::Press(CopyKey::Control));
    assert_eq!(steps[3], KeyStep::Wait(3));
    assert_eq!(steps[5], KeyStep::Release(CopyKey::Control));
    assert_eq!(steps.len(), 6);
}

#[test]
fn surfaced_messages() {
    assert_eq!(
        TranslateError::ProviderTimeout.user_message(),
        "Translation failed: Ollama request timed out"
    );
    assert_eq!(
        TranslateError::NoSelection.user_message(),
        "No text selected. Please select text before pressing Cmd+J."
    );
    assert_eq!(
        TranslateError::ClipboardAccess("busy".to_string()).user_message(),
        "Failed to read clipboard: busy"
    );
    assert_eq!(
        TranslateError::Dispatch("gone".to_string()).message(),
        "Failed to dispatch to main thread: gone"
    );
}
