use vstd::prelude::*;

use crate::capture::{
    capture_spec, fallback_outcome, fallback_spec, is_new_spec, is_new_text, CaptureModel,
    CaptureOutcome, FALLBACK_MIN_CHARS,
};
use crate::clipboard_manager::{after_write, opt_view, snapshot_of, SmartClipboard};
use crate::error::TranslateError;
use crate::language::{detect_language, get_target_language, language_of, target_of};
use crate::text::trim_spec;
use crate::translation::{
    interpret_reply, prompt_spec, reply_result_spec, translation_prompt, ProviderReply,
};

verus! {

/// How long the steps of a synthetic copy wait, in milliseconds. These are
/// empirical: applications update the clipboard at different speeds.
#[derive(Clone, Copy)]
pub struct CaptureTiming {
    /// Wait before the keystroke, so that the hotkey's own keys are released.
    pub pre_delay_ms: u64,
    /// How long the copy key is held down.
    pub hold_ms: u64,
    /// Wait after the first keystroke before the clipboard is read.
    pub first_settle_ms: u64,
    /// Wait after the second, slower attempt before the clipboard is read.
    pub second_settle_ms: u64,
}

impl CaptureTiming {
    /// The usual timing: 50 ms before, 10 ms hold, then 100 ms and 150 ms.
    pub fn standard() -> (r: Self)
        ensures
            r.pre_delay_ms == 50,
            r.hold_ms == 10,
            r.first_settle_ms == 100,
            r.second_settle_ms == 150,
    {
        CaptureTiming { pre_delay_ms: 50, hold_ms: 10, first_settle_ms: 100, second_settle_ms: 150 }
    }
}

/// A finished translation.
pub struct TranslationResult {
    pub original: String,
    pub translated: String,
    pub source_lang: String,
    pub target_lang: String,
}

/// A finished translation over character sequences.
pub struct TranslationView {
    pub original: Seq<char>,
    pub translated: Seq<char>,
    pub source_lang: Seq<char>,
    pub target_lang: Seq<char>,
}

impl View for TranslationResult {
    type V = TranslationView;

    open spec fn view(&self) -> TranslationView {
        TranslationView {
            original: self.original@,
            translated: self.translated@,
            source_lang: self.source_lang@,
            target_lang: self.target_lang@,
        }
    }
}

/// Where a transaction stands.
#[derive(PartialEq, Eq, Structural, Clone, Copy, Debug)]
pub enum Phase {
    /// Waiting for the clipboard's contents before anything is copied.
    Snapshotting,
    /// Waiting for the clipboard after the first copy keystroke.
    FirstAttempt,
    /// Waiting for the clipboard after the second copy keystroke.
    SecondAttempt,
    /// Waiting for the translation server.
    Translating,
    /// Finished.
    Done,
}

/// What happened since the last action.
pub enum Event {
    /// The clipboard was read, or could not be read.
    Snapshot(Result<String, String>),
    /// A copy keystroke was sent and the clipboard read back, or that failed.
    CopyRead(Result<String, TranslateError>),
    /// The translation server replied.
    Translated(ProviderReply),
}

/// What the host must do next.
pub enum Action {
    /// Read the clipboard's text.
    ReadClipboard,
    /// Send the copy keystroke, wait `settle_ms`, and read the clipboard.
    CopyAndRead { settle_ms: u64 },
    /// Ask the translation server for a translation of `text` into
    /// `target_lang`, with `prompt` as the instruction.
    Translate { text: String, target_lang: &'static str, prompt: String },
    /// Write `restore` back to the clipboard, if it is there, then report
    /// `outcome`: a translation is shown, an error is surfaced.
    Finish { restore: Option<String>, outcome: Result<TranslationResult, TranslateError> },
}

/// An action over character sequences.
pub enum ActionView {
    ReadClipboard,
    CopyAndRead { settle_ms: u64 },
    Translate { text: Seq<char>, target_lang: Seq<char>, prompt: Seq<char> },
    Finish { restore: Option<Seq<char>>, outcome: Result<TranslationView, TranslateError> },
}

impl View for Action {
    type V = ActionView;

    open spec fn view(&self) -> ActionView {
        match self {
            Action::ReadClipboard => ActionView::ReadClipboard,
            Action::CopyAndRead { settle_ms } => ActionView::CopyAndRead { settle_ms: *settle_ms },
            Action::Translate { text, target_lang, prompt } => ActionView::Translate {
                text: text@,
                target_lang: target_lang@,
                prompt: prompt@,
            },
            Action::Finish { restore, outcome } => ActionView::Finish {
                restore: opt_view(*restore),
                outcome: match outcome {
                    Ok(t) => Ok(t@),
                    Err(e) => Err(*e),
                },
            },
        }
    }
}

/// Whether an action touches the clipboard or the keyboard, and so must run
/// while the clipboard token is held. The network call runs without it.
pub open spec fn needs_clipboard_spec(a: ActionView) -> bool {
    !(a is Translate)
}

impl Action {
    /// Whether the action must run while the clipboard token is held.
    pub fn needs_clipboard(&self) -> (r: bool)
        ensures
            r == needs_clipboard_spec(self@),
    {
        !matches!(self, Action::Translate { .. })
    }
}

/// A transaction over character sequences.
pub struct TransactionView {
    pub phase: Phase,
    pub timing: CaptureTiming,
    pub snapshot: Option<Seq<char>>,
    pub first_read: Seq<char>,
    pub capture: CaptureModel,
    pub selected: Seq<char>,
    pub source_lang: Seq<char>,
    pub target_lang: Seq<char>,
}

/// A transaction before anything was done.
pub open spec fn initial_spec(timing: CaptureTiming) -> TransactionView {
    TransactionView {
        phase: Phase::Snapshotting,
        timing,
        snapshot: None,
        first_read: Seq::empty(),
        capture: CaptureModel::NoSelection,
        selected: Seq::empty(),
        source_lang: Seq::empty(),
        target_lang: Seq::empty(),
    }
}

/// Whether a transaction in `phase` can take `e`.
pub open spec fn accepts_spec(phase: Phase, e: Event) -> bool {
    match e {
        Event::Snapshot(_) => phase == Phase::Snapshotting,
        Event::CopyRead(_) => phase == Phase::FirstAttempt || phase == Phase::SecondAttempt,
        Event::Translated(_) => phase == Phase::Translating,
    }
}

/// The move to translation once `text` was captured as `capture`.
pub open spec fn translate_step(t: TransactionView, text: Seq<char>, capture: CaptureModel) -> (
    TransactionView,
    ActionView,
) {
    let source = language_of(text);
    let target = target_of(source);
    (
        TransactionView {
            phase: Phase::Translating,
            capture,
            selected: text,
            source_lang: source,
            target_lang: target,
            ..t
        },
        ActionView::Translate { text, target_lang: target, prompt: prompt_spec(text, target) },
    )
}

/// The end of a transaction with `outcome`: the snapshot is written back.
pub open spec fn finish_step(t: TransactionView, outcome: Result<TranslationView, TranslateError>) -> (
    TransactionView,
    ActionView,
) {
    (
        TransactionView { phase: Phase::Done, ..t },
        ActionView::Finish { restore: t.snapshot, outcome },
    )
}

/// The protocol: the next state and action of a transaction after an event
/// that it accepts.
pub open spec fn next_spec(t: TransactionView, e: Event) -> (TransactionView, ActionView) {
    match e {
        Event::Snapshot(read) => (
            TransactionView { phase: Phase::FirstAttempt, snapshot: snapshot_of(read), ..t },
            ActionView::CopyAndRead { settle_ms: t.timing.first_settle_ms },
        ),
        Event::CopyRead(Err(err)) => finish_step(t, Err(err)),
        Event::CopyRead(Ok(read)) => if is_new_spec(read@, t.snapshot) {
            translate_step(t, read@, CaptureModel::NewSelection(read@))
        } else if t.phase == Phase::FirstAttempt {
            (
                TransactionView { phase: Phase::SecondAttempt, first_read: read@, ..t },
                ActionView::CopyAndRead { settle_ms: t.timing.second_settle_ms },
            )
        } else {
            match fallback_spec(t.snapshot) {
                CaptureModel::FallbackClipboard(c) => translate_step(
                    t,
                    c,
                    CaptureModel::FallbackClipboard(c),
                ),
                _ => finish_step(
                    TransactionView { capture: CaptureModel::NoSelection, ..t },
                    Err(TranslateError::NoSelection),
                ),
            }
        },
        Event::Translated(reply) => match reply_result_spec(reply) {
            Ok(translated) => finish_step(
                t,
                Ok(
                    TranslationView {
                        original: t.selected,
                        translated,
                        source_lang: t.source_lang,
                        target_lang: t.target_lang,
                    },
                ),
            ),
            Err(err) => finish_step(t, Err(err)),
        },
    }
}

/// One capture, translate and restore cycle, driven by the host: the host
/// performs each action and hands back what happened as the next event.
pub struct Transaction {
    phase: Phase,
    timing: CaptureTiming,
    clipboard: SmartClipboard,
    first_read: Ghost<Seq<char>>,
    capture: Ghost<CaptureModel>,
    selected: String,
    source_lang: &'static str,
    target_lang: &'static str,
}

impl View for Transaction {
    type V = TransactionView;

    closed spec fn view(&self) -> TransactionView {
        TransactionView {
            phase: self.phase,
            timing: self.timing,
            snapshot: self.clipboard@,
            first_read: self.first_read@,
            capture: self.capture@,
            selected: self.selected@,
            source_lang: self.source_lang@,
            target_lang: self.target_lang@,
        }
    }
}

impl Transaction {
    /// Starts a transaction: its first action reads the clipboard.
    pub fn start(timing: CaptureTiming) -> (r: (Transaction, Action))
        ensures
            r.0@ == initial_spec(timing),
            r.1@ is ReadClipboard,
    {
        let t = Transaction {
            phase: Phase::Snapshotting,
            timing,
            clipboard: SmartClipboard::new(),
            first_read: Ghost(Seq::empty()),
            capture: Ghost(CaptureModel::NoSelection),
            selected: String::new(),
            source_lang: "",
            target_lang: "",
        };
        proof {
            reveal_strlit("");
            assert(t.source_lang@ =~= Seq::<char>::empty());
            assert(t.selected@ =~= Seq::<char>::empty());
        }
        (t, Action::ReadClipboard)
    }

    /// Where the transaction stands.
    pub fn phase(&self) -> (r: Phase)
        ensures
            r == self@.phase,
    {
        self.phase
    }

    /// Whether the transaction can take `event` now.
    pub fn accepts(&self, event: &Event) -> (r: bool)
        ensures
            r == accepts_spec(self@.phase, *event),
    {
        match event {
            Event::Snapshot(_) => self.phase == Phase::Snapshotting,
            Event::CopyRead(_) => self.phase == Phase::FirstAttempt || self.phase
                == Phase::SecondAttempt,
            Event::Translated(_) => self.phase == Phase::Translating,
        }
    }

    fn begin_translation(&mut self, text: String, capture: Ghost<CaptureModel>) -> (a: Action)
        ensures
            (final(self)@, a@) == translate_step(old(self)@, text@, capture@),
    {
        let source = detect_language(text.as_str());
        let target = get_target_language(source);
        let prompt = translation_prompt(text.as_str(), target);
        self.phase = Phase::Translating;
        self.capture = capture;
        self.selected = text.clone();
        self.source_lang = source;
        self.target_lang = target;
        Action::Translate { text, target_lang: target, prompt }
    }

    fn finish(&mut self, outcome: Result<TranslationResult, TranslateError>) -> (a: Action)
        ensures
            (final(self)@, a@) == finish_step(
                old(self)@,
                match outcome {
                    Ok(t) => Ok(t@),
                    Err(e) => Err(e),
                },
            ),
    {
        self.phase = Phase::Done;
        Action::Finish { restore: self.clipboard.restore_clipboard(), outcome }
    }

    /// Takes the next event and returns the next action.
    pub fn step(&mut self, event: Event) -> (a: Action)
        requires
            accepts_spec(old(self)@.phase, event),
        ensures
            (final(self)@, a@) == next_spec(old(self)@, event),
    {
        match event {
            Event::Snapshot(read) => {
                let _ = self.clipboard.save_clipboard(read);
                self.phase = Phase::FirstAttempt;
                Action::CopyAndRead { settle_ms: self.timing.first_settle_ms }
            },
            Event::CopyRead(Err(err)) => self.finish(Err(err)),
            Event::CopyRead(Ok(read)) => {
                let snapshot = self.clipboard.saved();
                if is_new_text(read.as_str(), &snapshot) {
                    let ghost captured = CaptureModel::NewSelection(read@);
                    self.begin_translation(read, Ghost(captured))
                } else if self.phase == Phase::FirstAttempt {
                    self.phase = Phase::SecondAttempt;
                    self.first_read = Ghost(read@);
                    Action::CopyAndRead { settle_ms: self.timing.second_settle_ms }
                } else {
                    match fallback_outcome(&snapshot) {
                        CaptureOutcome::FallbackClipboard(c) => {
                            let ghost captured = CaptureModel::FallbackClipboard(c@);
                            self.begin_translation(c, Ghost(captured))
                        },
                        _ => {
                            self.capture = Ghost(CaptureModel::NoSelection);
                            self.finish(Err(TranslateError::NoSelection))
                        },
                    }
                }
            },
            Event::Translated(reply) => match interpret_reply(reply) {
                Ok(translated) => {
                    let result = TranslationResult {
                        original: self.selected.clone(),
                        translated,
                        source_lang: String::from_str(self.source_lang),
                        target_lang: String::from_str(self.target_lang),
                    };
                    self.finish(Ok(result))
                },
                Err(err) => self.finish(Err(err)),
            },
        }
    }
}

/// The state after a transaction took `events` in order, and the last action
/// it returned, if any.
pub open spec fn run_spec(t: TransactionView, events: Seq<Event>) -> (TransactionView, Option<ActionView>)
    decreases events.len(),
{
    if events.len() == 0 {
        (t, None)
    } else {
        let (t1, a) = next_spec(t, events[0]);
        if events.len() == 1 {
            (t1, Some(a))
        } else {
            run_spec(t1, events.drop_first())
        }
    }
}

/// Whether a transaction accepts each of `events` in turn.
pub open spec fn run_accepted(t: TransactionView, events: Seq<Event>) -> bool
    decreases events.len(),
{
    events.len() == 0 || (accepts_spec(t.phase, events[0]) && run_accepted(
        next_spec(t, events[0]).0,
        events.drop_first(),
    ))
}

proof fn lemma_run_keeps_snapshot(t: TransactionView, events: Seq<Event>)
    requires
        t.phase != Phase::Snapshotting,
        run_accepted(t, events),
        run_spec(t, events).0.phase == Phase::Done,
        events.len() > 0,
    ensures
        run_spec(t, events).0.snapshot == t.snapshot,
        run_spec(t, events).1 matches Some(ActionView::Finish { restore, .. }) && restore
            == t.snapshot,
    decreases events.len(),
{
    let (t1, a) = next_spec(t, events[0]);
    if events.len() > 1 {
        lemma_run_keeps_snapshot(t1, events.drop_first());
    }
}

/// Every transaction that finishes writes its snapshot back as its last
/// action: when the clipboard held text at the start, it holds that text again
/// at the end, whatever was copied into it meanwhile. The snapshot is what
/// the first clipboard read found.
pub proof fn lemma_finish_restores_snapshot(
    timing: CaptureTiming,
    events: Seq<Event>,
    clip: Seq<char>,
)
    requires
        run_accepted(initial_spec(timing), events),
        run_spec(initial_spec(timing), events).0.phase == Phase::Done,
    ensures
        events.len() > 1,
        events[0] is Snapshot,
        (run_spec(initial_spec(timing), events).1 matches Some(ActionView::Finish { restore, .. })
            && restore == snapshot_of(events[0]->Snapshot_0) && (restore is Some ==> after_write(
            clip,
            restore,
        ) == restore->Some_0)),
{
    let t0 = initial_spec(timing);
    let (t1, a) = next_spec(t0, events[0]);
    lemma_run_keeps_snapshot(t1, events.drop_first());
}

/// After two copy attempts the capture is decided as the two reads dictate:
/// a new selection from the first read, else from the second, else the
/// fallback to the snapshot.
pub proof fn lemma_capture_after_attempts(t: TransactionView, first: String, second: String)
    requires
        t.phase == Phase::FirstAttempt,
    ensures
        ({
            let (t1, a1) = next_spec(t, Event::CopyRead(Ok(first)));
            if is_new_spec(first@, t.snapshot) {
                t1.capture == capture_spec(t.snapshot, first@, second@)
            } else {
                let (t2, a2) = next_spec(t1, Event::CopyRead(Ok(second)));
                t2.capture == capture_spec(t.snapshot, first@, second@)
            }
        }),
{
}

/// When neither attempt copies new text and the clipboard held text longer
/// than the threshold after trimming, the transaction translates that text.
pub proof fn lemma_transaction_falls_back(t: TransactionView, first: String, second: String)
    requires
        t.phase == Phase::FirstAttempt,
        t.snapshot is Some,
        !is_new_spec(first@, t.snapshot),
        !is_new_spec(second@, t.snapshot),
        trim_spec(t.snapshot->Some_0).len() > FALLBACK_MIN_CHARS,
    ensures
        ({
            let c = t.snapshot->Some_0;
            let (t1, a1) = next_spec(t, Event::CopyRead(Ok(first)));
            let (t2, a2) = next_spec(t1, Event::CopyRead(Ok(second)));
            &&& t2.capture == CaptureModel::FallbackClipboard(c)
            &&& t2.phase == Phase::Translating
            &&& (a2 matches ActionView::Translate { text, .. } && text == c)
        }),
{
}

/// When neither attempt copies new text and the clipboard was empty, or held
/// text no longer than the threshold after trimming, the transaction ends with
/// the no-selection error and writes the snapshot back.
pub proof fn lemma_transaction_no_selection(t: TransactionView, first: String, second: String)
    requires
        t.phase == Phase::FirstAttempt,
        !is_new_spec(first@, t.snapshot),
        !is_new_spec(second@, t.snapshot),
        t.snapshot is None || trim_spec(t.snapshot->Some_0).len() <= FALLBACK_MIN_CHARS,
    ensures
        ({
            let (t1, a1) = next_spec(t, Event::CopyRead(Ok(first)));
            let (t2, a2) = next_spec(t1, Event::CopyRead(Ok(second)));
            t2.capture == CaptureModel::NoSelection && t2.phase == Phase::Done
                && a2 == ActionView::Finish {
                restore: t.snapshot,
                outcome: Err(TranslateError::NoSelection),
            }
        }),
{
}

/// Only the request to the translation server runs without the clipboard
/// token; every other action of a transaction holds it.
pub proof fn lemma_network_without_token(t: TransactionView, e: Event)
    requires
        accepts_spec(t.phase, e),
    ensures
        !needs_clipboard_spec(next_spec(t, e).1) <==> next_spec(t, e).1 is Translate,
{
}

} // verus!
