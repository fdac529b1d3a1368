use vstd::prelude::*;

use crate::clipboard_manager::{opt_view, CopyResult};
use crate::text::{trim, trim_spec};

verus! {

/// Fewest characters, after trimming, that clipboard text needs to be used
/// when no new selection was copied.
pub const FALLBACK_MIN_CHARS: usize = 5;

/// How a capture ended.
pub enum CaptureOutcome {
    /// The copy keystroke put new text on the clipboard.
    NewSelection(String),
    /// Nothing new was copied; the text the clipboard already held is used.
    FallbackClipboard(String),
    /// Nothing usable was found.
    NoSelection,
}

/// A capture outcome over character sequences.
pub enum CaptureModel {
    NewSelection(Seq<char>),
    FallbackClipboard(Seq<char>),
    NoSelection,
}

impl View for CaptureOutcome {
    type V = CaptureModel;

    open spec fn view(&self) -> CaptureModel {
        match self {
            CaptureOutcome::NewSelection(t) => CaptureModel::NewSelection(t@),
            CaptureOutcome::FallbackClipboard(t) => CaptureModel::FallbackClipboard(t@),
            CaptureOutcome::NoSelection => CaptureModel::NoSelection,
        }
    }
}

/// A read after a copy keystroke shows a new selection: it holds more than
/// whitespace and differs from the snapshot.
pub open spec fn is_new_spec(read: Seq<char>, snapshot: Option<Seq<char>>) -> bool {
    trim_spec(read).len() > 0 && snapshot != Some(read)
}

/// The outcome when no attempt copied new text: the snapshot, if its trimmed
/// text is longer than the threshold, else nothing.
pub open spec fn fallback_spec(snapshot: Option<Seq<char>>) -> CaptureModel {
    match snapshot {
        Some(c) => if trim_spec(c).len() > FALLBACK_MIN_CHARS {
            CaptureModel::FallbackClipboard(c)
        } else {
            CaptureModel::NoSelection
        },
        None => CaptureModel::NoSelection,
    }
}

/// The outcome of a capture whose first attempt read `first` and whose
/// second attempt, made only when the first showed nothing new, read `second`.
pub open spec fn capture_spec(snapshot: Option<Seq<char>>, first: Seq<char>, second: Seq<char>) -> CaptureModel {
    if is_new_spec(first, snapshot) {
        CaptureModel::NewSelection(first)
    } else if is_new_spec(second, snapshot) {
        CaptureModel::NewSelection(second)
    } else {
        fallback_spec(snapshot)
    }
}

/// Whether the text read back after a copy keystroke is a new selection.
pub fn is_new_text(read: &str, snapshot: &Option<String>) -> (r: bool)
    ensures
        r == is_new_spec(read@, opt_view(*snapshot)),
{
    let trimmed = trim(read);
    if trimmed.unicode_len() == 0 {
        return false;
    }
    match snapshot {
        Some(s) => {
            let same = s.as_str().unicode_len() == read.unicode_len() && equal_text(s.as_str(), read);
            !same
        },
        None => true,
    }
}

fn equal_text(a: &str, b: &str) -> (r: bool)
    requires
        a@.len() == b@.len(),
    ensures
        r == (a@ == b@),
{
    let n = a.unicode_len();
    let mut i: usize = 0;
    while i < n
        invariant
            n == a@.len(),
            a@.len() == b@.len(),
            i <= n,
            forall|j: int| 0 <= j < i ==> a@[j] == b@[j],
        decreases n - i,
    {
        if a.get_char(i) != b.get_char(i) {
            return false;
        }
        i = i + 1;
    }
    assert(a@ =~= b@);
    true
}

/// The outcome when neither attempt copied new text.
pub fn fallback_outcome(snapshot: &Option<String>) -> (r: CaptureOutcome)
    ensures
        r@ == fallback_spec(opt_view(*snapshot)),
{
    match snapshot {
        Some(c) => {
            if trim(c.as_str()).unicode_len() > FALLBACK_MIN_CHARS {
                CaptureOutcome::FallbackClipboard(c.clone())
            } else {
                CaptureOutcome::NoSelection
            }
        },
        None => CaptureOutcome::NoSelection,
    }
}

impl CaptureOutcome {
    /// The captured text, or nothing when no selection was found.
    pub fn into_copy_result(self) -> (r: Option<CopyResult>)
        ensures
            match self@ {
                CaptureModel::NewSelection(t) => r is Some && r->Some_0.text@ == t,
                CaptureModel::FallbackClipboard(t) => r is Some && r->Some_0.text@ == t,
                CaptureModel::NoSelection => r is None,
            },
    {
        match self {
            CaptureOutcome::NewSelection(text) => Some(CopyResult { text }),
            CaptureOutcome::FallbackClipboard(text) => Some(CopyResult { text }),
            CaptureOutcome::NoSelection => None,
        }
    }
}

/// When no attempt copies new text and the clipboard held text longer than
/// the threshold after trimming, the capture falls back to that text.
pub proof fn lemma_fallback_to_clipboard(c: Seq<char>, first: Seq<char>, second: Seq<char>)
    requires
        !is_new_spec(first, Some(c)),
        !is_new_spec(second, Some(c)),
        trim_spec(c).len() > FALLBACK_MIN_CHARS,
    ensures
        capture_spec(Some(c), first, second) == CaptureModel::FallbackClipboard(c),
{
}

/// When no attempt copies new text and the clipboard was empty, or held text
/// no longer than the threshold after trimming, the capture finds nothing.
pub proof fn lemma_no_selection(snapshot: Option<Seq<char>>, first: Seq<char>, second: Seq<char>)
    requires
        !is_new_spec(first, snapshot),
        !is_new_spec(second, snapshot),
        snapshot is None || trim_spec(snapshot->Some_0).len() <= FALLBACK_MIN_CHARS,
    ensures
        capture_spec(snapshot, first, second) == CaptureModel::NoSelection,
{
}

/// A copy keystroke that reads back exactly the snapshot never counts as a
/// new selection.
pub proof fn lemma_unchanged_is_not_new(c: Seq<char>)
    ensures
        !is_new_spec(c, Some(c)),
{
}

} // verus!
