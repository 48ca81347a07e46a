//! One key from pin to user interface: the debounce watcher decides what
//! a sample means for the button, and what the button did decides what
//! becomes of the shared state.

use vstd::prelude::*;
use crate::buttons::{Button, ButtonAction};
use crate::debounce::{
    action_at, model_at, step_action, step_model, wait_in, watch_button, PinSample, WatchModel,
    WatchPhase, WatchStep, Watcher,
};
use crate::ui_state::{apply_key_event, ui_after_event, UIState, UIStateView, NUM_BUTTONS};

verus! {

/// The user-interface state after the first `i` samples of `samples`
/// were taken on the key of index `key_index`.
pub open spec fn ui_state_at(
    ui_state: UIStateView,
    key_index: nat,
    start: WatchModel,
    samples: Seq<PinSample>,
    long_press_ms: u64,
    i: int,
) -> UIStateView
    decreases i,
{
    if i <= 0 {
        ui_state
    } else {
        ui_after_event(
            ui_state_at(ui_state, key_index, start, samples, long_press_ms, i - 1),
            key_index,
            action_at(start, samples, long_press_ms, i - 1),
        )
    }
}

/// Takes one sample of a key and carries what follows from it into the
/// user-interface state. The watcher and the button move as
/// `watch_button` moves them. The state changes if the sample confirms
/// a press, and then the key's control is selected and its menu shown;
/// on every other sample the state stays exactly as it was.
pub fn key_watcher(
    ui_state: &mut UIState,
    button: &mut Button,
    watcher: &mut Watcher,
    sample: PinSample,
    long_press_ms: u64,
) -> (step: WatchStep)
    requires
        old(button).id < NUM_BUTTONS,
    ensures
        step.action == step_action(old(watcher).model(*old(button)), sample, long_press_ms),
        final(watcher).model(*final(button)) == step_model(
            old(watcher).model(*old(button)),
            sample,
            long_press_ms,
        ),
        step.wait == wait_in(final(watcher).phase),
        final(button).id == old(button).id,
        final(button).name == old(button).name,
        final(ui_state)@ == ui_after_event(old(ui_state)@, old(button).id as nat, step.action),
        step.action == ButtonAction::Press ==> final(ui_state).wf(),
        step.action != ButtonAction::Press ==> *final(ui_state) == *old(ui_state),
{
    let step = watch_button(button, watcher, sample, long_press_ms);
    apply_key_event(ui_state, button.id, step.action);
    step
}

/// A bounce leaves the user-interface state alone. When the pin is high
/// again at the end of the debounce interval after a falling edge, or
/// low again at the end of the one after a rising level, the sample
/// changes neither the selected control nor the menu nor anything else
/// of the state, whatever the button and the state were.
pub proof fn lemma_bounce_leaves_ui_state(
    ui_state: UIStateView,
    key_index: nat,
    m: WatchModel,
    sample: PinSample,
    long_press_ms: u64,
)
    requires
        (m.phase == WatchPhase::ConfirmPress && !sample.is_low) || (m.phase
            == WatchPhase::ConfirmRelease && sample.is_low),
    ensures
        ui_after_event(ui_state, key_index, step_action(m, sample, long_press_ms)) == ui_state,
{
}

/// The state changes on a confirmed press and on nothing else. Over
/// every sequence of samples: if sample `i` changes the state, then it
/// ends the debounce interval after a falling edge with the pin still
/// low, and it reports a press.
pub proof fn lemma_only_a_press_changes_ui_state(
    ui_state: UIStateView,
    key_index: nat,
    start: WatchModel,
    samples: Seq<PinSample>,
    long_press_ms: u64,
    i: int,
)
    requires
        0 <= i < samples.len(),
        ui_state_at(ui_state, key_index, start, samples, long_press_ms, i + 1) != ui_state_at(
            ui_state,
            key_index,
            start,
            samples,
            long_press_ms,
            i,
        ),
    ensures
        action_at(start, samples, long_press_ms, i) == ButtonAction::Press,
        model_at(start, samples, long_press_ms, i).phase
            == WatchPhase::ConfirmPress,
        samples[i].is_low,
{
}

} // verus!
