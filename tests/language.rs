use clip_translate::language::{detect_language, get_target_language, language_from_counts};

#[test]
fn japanese_greeting_is_japanese() {
    assert_eq!(detect_language("こんにちは"), "ja");
}

#[test]
fn ascii_text_is_english() {
    assert_eq!(detect_language("Hello, world! 123"), "en");
}

#[test]
fn empty_and_blank_text_is_english() {
    assert_eq!(detect_language(""), "en");
    assert_eq!(detect_language("   \t\n "), "en");
}

#[test]
fn katakana_and_kanji_count_as_japanese() {
    assert_eq!(detect_language("カタカナ"), "ja");
    assert_eq!(detect_language("日本語"), "ja");
    assert_eq!(detect_language("\u{3400}"), "ja");
}

#[test]
fn threshold_is_strictly_more_than_a_tenth() {
    // one CJK character among ten visible characters: exactly a tenth
    assert_eq!(detect_language("abcdefghi日"), "en");
    // one among nine: more than a tenth
    assert_eq!(detect_language("abcdefgh日"), "ja");
}

#[test]
fn whitespace_does_not_count_toward_total() {
    // one CJK character among five visible ones, padded with many spaces
    assert_eq!(detect_language("a b c d                                日"), "ja");
}

#[test]
fn counts_decide_language() {
    assert_eq!(language_from_counts(0, 0), "en");
    assert_eq!(language_from_counts(1, 10), "en");
    assert_eq!(language_from_counts(2, 10), "ja");
    assert_eq!(language_from_counts(usize::MAX, usize::MAX), "ja");
}

#[test]
fn target_language_toggles() {
    assert_eq!(get_target_language("ja"), "en");
    assert_eq!(get_target_language("en"), "ja");
    assert_eq!(get_target_language("fr"), "ja");
    assert_eq!(get_target_language(""), "ja");
    assert_eq!(get_target_language("jap"), "ja");
}
