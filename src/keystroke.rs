use vstd::prelude::*;

use crate::transaction::CaptureTiming;

verus! {

/// A key of the copy shortcut.
#[derive(PartialEq, Eq, Structural, Clone, Copy, Debug)]
pub enum CopyKey {
    /// The Command key, the copy modifier on macOS.
    Meta,
    /// The Control key, the copy modifier elsewhere.
    Control,
    /// The character key `c`.
    C,
}

/// One step of a synthetic keystroke.
#[derive(PartialEq, Eq, Structural, Clone, Copy, Debug)]
pub enum KeyStep {
    /// Wait this many milliseconds.
    Wait(u64),
    /// Press a key down.
    Press(CopyKey),
    /// Let a key go.
    Release(CopyKey),
}

/// The modifier of the copy shortcut on the platform.
pub open spec fn modifier_spec(mac: bool) -> CopyKey {
    if mac {
        CopyKey::Meta
    } else {
        CopyKey::Control
    }
}

/// The steps of the copy shortcut: a wait for the hotkey's own keys to be
/// released, the modifier and `c` pressed, `c` held, then both let go in
/// reverse order.
pub open spec fn copy_steps_spec(mac: bool, timing: CaptureTiming) -> Seq<KeyStep> {
    seq![
        KeyStep::Wait(timing.pre_delay_ms),
        KeyStep::Press(modifier_spec(mac)),
        KeyStep::Press(CopyKey::C),
        KeyStep::Wait(timing.hold_ms),
        KeyStep::Release(CopyKey::C),
        KeyStep::Release(modifier_spec(mac)),
    ]
}

/// The steps that send the copy shortcut: Command+C on macOS (`mac`),
/// Control+C elsewhere.
pub fn copy_keystrokes(mac: bool, timing: CaptureTiming) -> (r: Vec<KeyStep>)
    ensures
        r@ == copy_steps_spec(mac, timing),
{
    let modifier = if mac {
        CopyKey::Meta
    } else {
        CopyKey::Control
    };
    let mut steps: Vec<KeyStep> = Vec::new();
    steps.push(KeyStep::Wait(timing.pre_delay_ms));
    steps.push(KeyStep::Press(modifier));
    steps.push(KeyStep::Press(CopyKey::C));
    steps.push(KeyStep::Wait(timing.hold_ms));
    steps.push(KeyStep::Release(CopyKey::C));
    steps.push(KeyStep::Release(modifier));
    assert(steps@ =~= copy_steps_spec(mac, timing));
    steps
}

/// Every key the copy shortcut presses is let go again, and after it was pressed.
pub proof fn lemma_every_press_released(mac: bool, timing: CaptureTiming, i: int)
    requires
        0 <= i < copy_steps_spec(mac, timing).len(),
        copy_steps_spec(mac, timing)[i] is Press,
    ensures
        exists|j: int|
            i < j < copy_steps_spec(mac, timing).len() && #[trigger] copy_steps_spec(mac, timing)[j]
                == KeyStep::Release(copy_steps_spec(mac, timing)[i]->Press_0),
{
    let s = copy_steps_spec(mac, timing);
    if i == 1 {
        assert(s[5] == KeyStep::Release(s[i]->Press_0));
    } else {
        assert(i == 2);
        assert(s[4] == KeyStep::Release(s[i]->Press_0));
    }
}

} // verus!
