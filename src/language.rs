use vstd::prelude::*;

use crate::text::{is_whitespace, white_space};

verus! {

/// Whether `c` lies in the Hiragana, Katakana, CJK Unified Ideographs or
/// CJK Extension A block.
pub open spec fn is_cjk(c: char) -> bool {
    let u = c as u32;
    (0x3040 <= u && u <= 0x309F) || (0x30A0 <= u && u <= 0x30FF) || (0x4E00 <= u && u <= 0x9FAF)
        || (0x3400 <= u && u <= 0x4DBF)
}

/// Number of characters of `s` in the CJK ranges.
pub open spec fn cjk_count(s: Seq<char>) -> nat
    decreases s.len(),
{
    if s.len() == 0 {
        0
    } else {
        cjk_count(s.drop_last()) + if is_cjk(s.last()) {
            1nat
        } else {
            0nat
        }
    }
}

/// Number of characters of `s` that are not whitespace.
pub open spec fn visible_count(s: Seq<char>) -> nat
    decreases s.len(),
{
    if s.len() == 0 {
        0
    } else {
        visible_count(s.drop_last()) + if !white_space(s.last()) {
            1nat
        } else {
            0nat
        }
    }
}

/// Japanese when more than a tenth of the visible characters are CJK.
pub open spec fn is_japanese_by_counts(cjk: nat, visible: nat) -> bool {
    visible > 0 && 10 * cjk > visible
}

/// The language code detected for a text.
pub open spec fn language_of(s: Seq<char>) -> Seq<char> {
    if is_japanese_by_counts(cjk_count(s), visible_count(s)) {
        "ja"@
    } else {
        "en"@
    }
}

/// The language code translated into from `source`.
pub open spec fn target_of(source: Seq<char>) -> Seq<char> {
    if source == "ja"@ {
        "en"@
    } else {
        "ja"@
    }
}

/// Picks the language from the number of CJK characters and the number of
/// non-whitespace characters of a text.
pub fn language_from_counts(cjk: usize, visible: usize) -> (r: &'static str)
    ensures
        r@ == (if is_japanese_by_counts(cjk as nat, visible as nat) {
            "ja"@
        } else {
            "en"@
        }),
{
    if visible > 0 && (cjk as u128) * 10 > visible as u128 {
        "ja"
    } else {
        "en"
    }
}

fn is_cjk_char(c: char) -> (r: bool)
    ensures
        r == is_cjk(c),
{
    let u = c as u32;
    (0x3040 <= u && u <= 0x309F) || (0x30A0 <= u && u <= 0x30FF) || (0x4E00 <= u && u <= 0x9FAF)
        || (0x3400 <= u && u <= 0x4DBF)
}

/// Detects whether `text` is Japanese (`"ja"`) or English (`"en"`).
pub fn detect_language(text: &str) -> (r: &'static str)
    ensures
        r@ == language_of(text@),
{
    let n = text.unicode_len();
    let mut cjk: usize = 0;
    let mut visible: usize = 0;
    let mut i: usize = 0;
    while i < n
        invariant
            n == text@.len(),
            i <= n,
            cjk == cjk_count(text@.subrange(0, i as int)),
            visible == visible_count(text@.subrange(0, i as int)),
            cjk <= i,
            visible <= i,
        decreases n - i,
    {
        let c = text.get_char(i);
        proof {
            let prefix = text@.subrange(0, i as int + 1);
            assert(prefix.drop_last() =~= text@.subrange(0, i as int));
            assert(prefix.last() == c);
        }
        if is_cjk_char(c) {
            cjk = cjk + 1;
        }
        if !is_whitespace(c) {
            visible = visible + 1;
        }
        i = i + 1;
    }
    proof {
        assert(text@.subrange(0, n as int) =~= text@);
    }
    language_from_counts(cjk, visible)
}

/// The language to translate into: English for Japanese, Japanese otherwise.
pub fn get_target_language(detected: &str) -> (r: &'static str)
    ensures
        r@ == target_of(detected@),
{
    proof {
        reveal_strlit("ja");
    }
    let is_ja = detected.unicode_len() == 2 && detected.get_char(0) == 'j' && detected.get_char(1)
        == 'a';
    if is_ja {
        assert(detected@ =~= "ja"@);
        "en"
    } else {
        "ja"
    }
}

proof fn lemma_ascii_has_no_cjk(s: Seq<char>)
    requires
        forall|i: int| 0 <= i < s.len() ==> (#[trigger] s[i] as u32) < 128,
    ensures
        cjk_count(s) == 0,
    decreases s.len(),
{
    if s.len() > 0 {
        assert(s.last() == s[s.len() - 1]);
        lemma_ascii_has_no_cjk(s.drop_last());
    }
}

/// Detection in three rules: Japanese when more than a tenth of the
/// non-whitespace characters are CJK; English when there is no
/// non-whitespace character; English for text of ASCII characters only.
pub proof fn lemma_detection_rules(s: Seq<char>)
    ensures
        visible_count(s) > 0 && 10 * cjk_count(s) > visible_count(s) ==> language_of(s) == "ja"@,
        visible_count(s) == 0 ==> language_of(s) == "en"@,
        (forall|i: int| 0 <= i < s.len() ==> (#[trigger] s[i] as u32) < 128) ==> language_of(s)
            == "en"@,
{
    if forall|i: int| 0 <= i < s.len() ==> (#[trigger] s[i] as u32) < 128 {
        lemma_ascii_has_no_cjk(s);
    }
}

/// The target is a toggle: Japanese goes to English, English and every
/// other code to Japanese.
pub proof fn lemma_target_toggle(code: Seq<char>)
    ensures
        target_of("ja"@) == "en"@,
        target_of("en"@) == "ja"@,
        code != "ja"@ ==> target_of(code) == "ja"@,
{
    reveal_strlit("ja");
    reveal_strlit("en");
    assert("en"@[0] != "ja"@[0]);
}

} // verus!
