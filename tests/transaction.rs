use clip_translate::error::TranslateError;
use clip_translate::transaction::{Action, CaptureTiming, Event, Phase, Transaction};
use clip_translate::translation::{ProviderBody, ProviderReply};

fn ok_reply(text: &str) -> ProviderReply {
    ProviderReply::Received {
        status: 200,
        status_text: "200 OK".to_string(),
        body: Ok(ProviderBody { response: text.to_string(), error: None }),
    }
}

fn started(clipboard: Result<String, String>) -> Transaction {
    let (mut t, first) = Transaction::start(CaptureTiming::standard());
    assert!(matches!(first, Action::ReadClipboard));
    assert!(t.phase() == Phase::Snapshotting);
    let ev = Event::Snapshot(clipboard);
    assert!(t.accepts(&ev));
    match t.step(ev) {
        Action::CopyAndRead { settle_ms } => assert_eq!(settle_ms, 100),
        _ => panic!("expected the first copy attempt"),
    }
    assert!(t.phase() == Phase::FirstAttempt);
    t
}

#[test]
fn scenario_new_selection_on_empty_clipboard() {
    let mut t = started(Ok(String::new()));
    match t.step(Event::CopyRead(Ok("こんにちは".to_string()))) {
        Action::Translate { text, target_lang, prompt } => {
            assert_eq!(text, "こんにちは");
            assert_eq!(target_lang, "en");
            assert!(prompt.contains("to English"));
            assert!(prompt.ends_with("こんにちは"));
        }
        _ => panic!("expected a translation request"),
    }
    assert!(t.phase() == Phase::Translating);
    match t.step(Event::Translated(ok_reply(" Hello \n"))) {
        Action::Finish { restore, outcome } => {
            assert!(restore.is_none());
            let r = outcome.ok().unwrap();
            assert_eq!(r.original, "こんにちは");
            assert_eq!(r.translated, "Hello");
            assert_eq!(r.source_lang, "ja");
            assert_eq!(r.target_lang, "en");
        }
        _ => panic!("expected the end"),
    }
    assert!(t.phase() == Phase::Done);
}

#[test]
fn scenario_unchanged_clipboard_falls_back() {
    let mut t = started(Ok("old-value".to_string()));
    match t.step(Event::CopyRead(Ok("old-value".to_string()))) {
        Action::CopyAndRead { settle_ms } => assert_eq!(settle_ms, 150),
        _ => panic!("expected a second attempt"),
    }
    assert!(t.phase() == Phase::SecondAttempt);
    match t.step(Event::CopyRead(Ok("old-value".to_string()))) {
        Action::Translate { text, target_lang, .. } => {
            assert_eq!(text, "old-value");
            assert_eq!(target_lang, "ja");
        }
        _ => panic!("expected a translation request"),
    }
    match t.step(Event::Translated(ok_reply("古い値"))) {
        Action::Finish { restore, outcome } => {
            assert_eq!(restore, Some("old-value".to_string()));
            let r = outcome.ok().unwrap();
            assert_eq!(r.original, "old-value");
            assert_eq!(r.translated, "古い値");
            assert_eq!(r.source_lang, "en");
            assert_eq!(r.target_lang, "ja");
        }
        _ => panic!("expected the end"),
    }
}

#[test]
fn scenario_short_clipboard_means_no_selection() {
    let mut t = started(Ok("hi".to_string()));
    assert!(matches!(t.step(Event::CopyRead(Ok("hi".to_string()))), Action::CopyAndRead { .. }));
    match t.step(Event::CopyRead(Ok("hi".to_string()))) {
        Action::Finish { restore, outcome } => {
            assert_eq!(restore, Some("hi".to_string()));
            let e = outcome.err().unwrap();
            assert!(matches!(e, TranslateError::NoSelection));
            assert!(e.message().starts_with("No text selected"));
        }
        _ => panic!("expected the end"),
    }
    assert!(t.phase() == Phase::Done);
    assert!(!t.accepts(&Event::CopyRead(Ok("late".to_string()))));
}

#[test]
fn scenario_rate_limit_restores_and_fails() {
    let mut t = started(Ok("my clipboard".to_string()));
    let a = t.step(Event::CopyRead(Ok("selected words".to_string())));
    assert!(!a.needs_clipboard());
    assert!(matches!(a, Action::Translate { .. }));
    let reply = ProviderReply::Received {
        status: 429,
        status_text: "429 Too Many Requests".to_string(),
        body: Err("not json".to_string()),
    };
    let a = t.step(Event::Translated(reply));
    assert!(a.needs_clipboard());
    match a {
        Action::Finish { restore, outcome } => {
            assert_eq!(restore, Some("my clipboard".to_string()));
            let e = outcome.err().unwrap();
            assert!(matches!(e, TranslateError::ProviderRateLimited));
            assert!(e.message().contains("try again later"));
        }
        _ => panic!("expected the end"),
    }
}

#[test]
fn second_attempt_can_find_the_selection() {
    let mut t = started(Ok("old-value".to_string()));
    assert!(matches!(t.step(Event::CopyRead(Ok("old-value".to_string()))), Action::CopyAndRead { .. }));
    match t.step(Event::CopyRead(Ok("slow app text".to_string()))) {
        Action::Translate { text, .. } => assert_eq!(text, "slow app text"),
        _ => panic!("expected a translation request"),
    }
}

#[test]
fn injection_failure_restores_the_snapshot() {
    let mut t = started(Ok("keep me".to_string()));
    let ev = Event::CopyRead(Err(TranslateError::Injection("no display".to_string())));
    match t.step(ev) {
        Action::Finish { restore, outcome } => {
            assert_eq!(restore, Some("keep me".to_string()));
            assert_eq!(outcome.err().unwrap().message(), "Failed to simulate copy: no display");
        }
        _ => panic!("expected the end"),
    }
}

#[test]
fn unreadable_clipboard_has_nothing_to_restore() {
    let mut t = started(Err("locked".to_string()));
    assert!(matches!(t.step(Event::CopyRead(Ok("   ".to_string()))), Action::CopyAndRead { .. }));
    match t.step(Event::CopyRead(Ok(String::new()))) {
        Action::Finish { restore, outcome } => {
            assert!(restore.is_none());
            assert!(matches!(outcome, Err(TranslateError::NoSelection)));
        }
        _ => panic!("expected the end"),
    }
}

#[test]
fn provider_error_after_capture_restores() {
    let mut t = started(Ok("before".to_string()));
    assert!(matches!(t.step(Event::CopyRead(Ok("new text".to_string()))), Action::Translate { .. }));
    assert!(t.accepts(&Event::Translated(ProviderReply::TimedOut)));
    match t.step(Event::Translated(ProviderReply::TimedOut)) {
        Action::Finish { restore, outcome } => {
            assert_eq!(restore, Some("before".to_string()));
            assert!(matches!(outcome, Err(TranslateError::ProviderTimeout)));
        }
        _ => panic!("expected the end"),
    }
}

#[test]
fn standard_timing_values() {
    let t = CaptureTiming::standard();
    assert_eq!((t.pre_delay_ms, t.hold_ms, t.first_settle_ms, t.second_settle_ms), (50, 10, 100, 150));
}
