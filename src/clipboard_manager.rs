use vstd::prelude::*;

verus! {

/// The view of an optional string: its characters, if any.
pub open spec fn opt_view(o: Option<String>) -> Option<Seq<char>> {
    match o {
        Some(t) => Some(t@),
        None => None,
    }
}

/// The clipboard's text after a transaction writes `write` back to it, when it
/// held `clip` before: a write replaces the text, no write leaves it as it was.
pub open spec fn after_write(clip: Seq<char>, write: Option<Seq<char>>) -> Seq<char> {
    match write {
        Some(t) => t,
        None => clip,
    }
}

/// What a snapshot keeps of a clipboard read: a non-empty text, and nothing
/// for an empty or failed read.
pub open spec fn snapshot_of(read: Result<String, String>) -> Option<Seq<char>> {
    match read {
        Ok(t) => if t@.len() > 0 {
            Some(t@)
        } else {
            None
        },
        Err(_) => None,
    }
}

/// The result of a capture: the text that was selected.
pub struct CopyResult {
    pub text: String,
}

/// The clipboard snapshot of one transaction: the text the clipboard held
/// before the transaction began, if it held any.
pub struct SmartClipboard {
    saved_clipboard: Option<String>,
}

impl View for SmartClipboard {
    type V = Option<Seq<char>>;

    closed spec fn view(&self) -> Option<Seq<char>> {
        opt_view(self.saved_clipboard)
    }
}

pub(crate) fn clone_opt(o: &Option<String>) -> (r: Option<String>)
    ensures
        opt_view(r) == opt_view(*o),
{
    match o {
        Some(t) => Some(t.clone()),
        None => None,
    }
}

impl SmartClipboard {
    /// A snapshot that holds nothing.
    pub fn new() -> (r: Self)
        ensures
            r@ is None,
    {
        SmartClipboard { saved_clipboard: None }
    }

    /// Takes the snapshot from a read of the clipboard: a non-empty text is
    /// kept; an empty clipboard, or one that could not be read, leaves nothing.
    /// Whatever was saved before is replaced. This step never fails.
    pub fn save_clipboard(&mut self, read: Result<String, String>) -> (r: Result<(), String>)
        ensures
            final(self)@ == snapshot_of(read),
            r is Ok,
    {
        self.saved_clipboard = match read {
            Ok(t) => if t.unicode_len() > 0 {
                Some(t)
            } else {
                None
            },
            Err(_) => None,
        };
        Ok(())
    }

    /// The saved text, if any.
    pub fn saved(&self) -> (r: Option<String>)
        ensures
            opt_view(r) == self@,
    {
        clone_opt(&self.saved_clipboard)
    }

    /// What restoring writes to the clipboard: the saved text, or nothing at
    /// all when nothing was saved. Restoring twice writes the same text twice.
    pub fn restore_clipboard(&self) -> (r: Option<String>)
        ensures
            opt_view(r) == self@,
    {
        clone_opt(&self.saved_clipboard)
    }
}

/// Restoring a snapshot that was never saved leaves any clipboard text as it was.
pub proof fn lemma_restore_without_save(cb: SmartClipboard, clip: Seq<char>)
    requires
        cb@ is None,
    ensures
        after_write(clip, cb@) == clip,
{
}

/// Restoring a saved snapshot leaves the clipboard holding the saved text,
/// whatever it held in between, and restoring again changes nothing.
pub proof fn lemma_restore_idempotent(cb: SmartClipboard, clip: Seq<char>)
    requires
        cb@ is Some,
    ensures
        after_write(clip, cb@) == cb@->Some_0,
        after_write(after_write(clip, cb@), cb@) == after_write(clip, cb@),
{
}

} // verus!
