//! Debounce watcher: decides, sample by sample, what a button does.
//!
//! The driver owns the pin and the clock. It performs the wait that the
//! watcher asked for, reads the pin and the clock, and hands both to
//! `watch_button`, which answers with the event and the next wait.

use vstd::prelude::*;
use crate::buttons::{
    action_for_level, state_after_level, Button, ButtonAction, ButtonState, DEBOUNCE_MS, POLL_MS,
};

verus! {

/// Where the watcher stands between two samples.
#[derive(Debug, Clone, Copy, PartialEq, Eq, Structural)]
pub enum WatchPhase {
    /// Nothing is going on; the driver waits for a falling edge.
    AwaitEdge,
    /// A falling edge was seen; the next sample confirms or rejects it.
    ConfirmPress,
    /// The button is held; the pin is polled.
    Holding,
    /// The pin was seen high while held; the next sample confirms or
    /// rejects the release.
    ConfirmRelease,
}

/// What the driver has to do before it takes the next sample.
#[derive(Debug, Clone, Copy, PartialEq, Eq, Structural)]
pub enum WatchWait {
    /// Suspend until the pin goes from high to low.
    FallingEdge,
    /// Sleep for this many milliseconds.
    Delay(u64),
}

/// One reading of the pin, with the clock at that moment.
#[derive(Debug, Clone, Copy, PartialEq, Eq, Structural)]
pub struct PinSample {
    /// The pin reads low: with active-low wiring, the button is down.
    pub is_low: bool,
    /// Milliseconds on a clock that does not run backwards.
    pub now_ms: u64,
}

/// Answer of the watcher to one sample.
#[derive(Debug, Clone, Copy, PartialEq, Eq, Structural)]
pub struct WatchStep {
    pub action: ButtonAction,
    pub wait: WatchWait,
}

/// State of the watcher of one button.
#[derive(Debug, Clone, Copy, PartialEq, Eq, Structural)]
pub struct Watcher {
    pub phase: WatchPhase,
    /// Clock reading at which the current press was confirmed.
    pub pressed_at_ms: u64,
}

/// The watcher together with the logical state of its button.
pub struct WatchModel {
    pub phase: WatchPhase,
    pub pressed_at_ms: u64,
    pub state: ButtonState,
    pub last_action: ButtonAction,
}

/// Milliseconds from `since_ms` to `now_ms`, zero if the clock stepped back.
pub open spec fn elapsed_ms(now_ms: u64, since_ms: u64) -> int {
    if now_ms >= since_ms {
        now_ms - since_ms
    } else {
        0
    }
}

/// The long-press timer, started at `pressed_at_ms`, has run out.
pub open spec fn long_press_due(sample: PinSample, pressed_at_ms: u64, long_press_ms: u64) -> bool {
    elapsed_ms(sample.now_ms, pressed_at_ms) >= long_press_ms
}

/// A held button turns into a long-pressed one at this sample.
pub open spec fn long_press_fires(m: WatchModel, sample: PinSample, long_press_ms: u64) -> bool {
    m.state == ButtonState::Pressed && long_press_due(sample, m.pressed_at_ms, long_press_ms)
}

/// Event that one sample produces.
pub open spec fn step_action(m: WatchModel, sample: PinSample, long_press_ms: u64) -> ButtonAction {
    match m.phase {
        WatchPhase::AwaitEdge => ButtonAction::NoAction,
        WatchPhase::ConfirmPress => if sample.is_low {
            action_for_level(m.state, true)
        } else {
            ButtonAction::NoAction
        },
        WatchPhase::Holding => if !sample.is_low {
            ButtonAction::NoAction
        } else if long_press_fires(m, sample, long_press_ms) {
            ButtonAction::LongPress
        } else {
            ButtonAction::NoAction
        },
        WatchPhase::ConfirmRelease => if !sample.is_low {
            action_for_level(m.state, false)
        } else if long_press_fires(m, sample, long_press_ms) {
            ButtonAction::LongPress
        } else {
            ButtonAction::NoAction
        },
    }
}

/// Watcher and button after one sample.
pub open spec fn step_model(m: WatchModel, sample: PinSample, long_press_ms: u64) -> WatchModel {
    match m.phase {
        WatchPhase::AwaitEdge => WatchModel { phase: WatchPhase::ConfirmPress, ..m },
        WatchPhase::ConfirmPress => if sample.is_low {
            WatchModel {
                phase: WatchPhase::Holding,
                pressed_at_ms: sample.now_ms,
                state: state_after_level(m.state, true),
                last_action: action_for_level(m.state, true),
            }
        } else {
            WatchModel { phase: WatchPhase::AwaitEdge, ..m }
        },
        WatchPhase::Holding => if !sample.is_low {
            WatchModel { phase: WatchPhase::ConfirmRelease, ..m }
        } else if long_press_fires(m, sample, long_press_ms) {
            WatchModel {
                state: ButtonState::LongPressed,
                last_action: ButtonAction::LongPress,
                ..m
            }
        } else {
            m
        },
        WatchPhase::ConfirmRelease => if !sample.is_low {
            WatchModel {
                phase: WatchPhase::AwaitEdge,
                state: state_after_level(m.state, false),
                last_action: action_for_level(m.state, false),
                ..m
            }
        } else if long_press_fires(m, sample, long_press_ms) {
            WatchModel {
                phase: WatchPhase::Holding,
                state: ButtonState::LongPressed,
                last_action: ButtonAction::LongPress,
                ..m
            }
        } else {
            WatchModel { phase: WatchPhase::Holding, ..m }
        },
    }
}

/// Wait that the driver performs in a phase before it samples.
pub open spec fn wait_in(phase: WatchPhase) -> WatchWait {
    match phase {
        WatchPhase::AwaitEdge => WatchWait::FallingEdge,
        WatchPhase::ConfirmPress => WatchWait::Delay(DEBOUNCE_MS),
        WatchPhase::Holding => WatchWait::Delay(POLL_MS),
        WatchPhase::ConfirmRelease => WatchWait::Delay(DEBOUNCE_MS),
    }
}

impl Watcher {
    /// A watcher that waits for the first falling edge.
    pub fn new() -> (watcher: Watcher)
        ensures
            watcher.phase == WatchPhase::AwaitEdge,
            watcher.pressed_at_ms == 0,
    {
        Watcher { phase: WatchPhase::AwaitEdge, pressed_at_ms: 0 }
    }

    /// The watcher and the state of `button` as one value.
    pub open spec fn model(self, button: Button) -> WatchModel {
        WatchModel {
            phase: self.phase,
            pressed_at_ms: self.pressed_at_ms,
            state: button.state,
            last_action: button.last_action,
        }
    }

    /// The wait to perform before the next sample is taken.
    pub fn pending_wait(&self) -> (wait: WatchWait)
        ensures
            wait == wait_in(self.phase),
    {
        match self.phase {
            WatchPhase::AwaitEdge => WatchWait::FallingEdge,
            WatchPhase::ConfirmPress => WatchWait::Delay(DEBOUNCE_MS),
            WatchPhase::Holding => WatchWait::Delay(POLL_MS),
            WatchPhase::ConfirmRelease => WatchWait::Delay(DEBOUNCE_MS),
        }
    }
}

/// Whether the long-press timer that started at `pressed_at_ms` has run out.
fn timer_expired(sample: PinSample, pressed_at_ms: u64, long_press_ms: u64) -> (due: bool)
    ensures
        due == long_press_due(sample, pressed_at_ms, long_press_ms),
{
    if sample.now_ms >= pressed_at_ms {
        sample.now_ms - pressed_at_ms >= long_press_ms
    } else {
        long_press_ms == 0
    }
}

/// Takes the sample that followed the pending wait and decides: the event
/// for the button, the next phase, and the wait before the next sample.
///
/// In `AwaitEdge` the sample stands for the falling edge itself. A press
/// is accepted when the pin is still low one debounce interval after the
/// edge, a release when it is still high one debounce interval after it
/// was first seen high. In every poll the release is looked at first and
/// the long-press timer second.
pub fn watch_button(
    button: &mut Button,
    watcher: &mut Watcher,
    sample: PinSample,
    long_press_ms: u64,
) -> (step: WatchStep)
    ensures
        step.action == step_action(old(watcher).model(*old(button)), sample, long_press_ms),
        final(watcher).model(*final(button)) == step_model(
            old(watcher).model(*old(button)),
            sample,
            long_press_ms,
        ),
        step.wait == wait_in(final(watcher).phase),
        final(button).id == old(button).id,
        final(button).name == old(button).name,
{
    let mut action = ButtonAction::NoAction;
    match watcher.phase {
        WatchPhase::AwaitEdge => {
            watcher.phase = WatchPhase::ConfirmPress;
        },
        WatchPhase::ConfirmPress => {
            if sample.is_low {
                action = button.update_state(true);
                watcher.pressed_at_ms = sample.now_ms;
                watcher.phase = WatchPhase::Holding;
            } else {
                watcher.phase = WatchPhase::AwaitEdge;
            }
        },
        WatchPhase::Holding => {
            if !sample.is_low {
                watcher.phase = WatchPhase::ConfirmRelease;
            } else if timer_expired(sample, watcher.pressed_at_ms, long_press_ms) {
                action = button.process_long_press(long_press_ms);
            }
        },
        WatchPhase::ConfirmRelease => {
            if !sample.is_low {
                action = button.update_state(false);
                watcher.phase = WatchPhase::AwaitEdge;
            } else {
                watcher.phase = WatchPhase::Holding;
                if timer_expired(sample, watcher.pressed_at_ms, long_press_ms) {
                    action = button.process_long_press(long_press_ms);
                }
            }
        },
    }
    WatchStep { action, wait: watcher.pending_wait() }
}

/// The watcher and its button agree: no press is pending or held unless
/// the button is down, and none is idle while it is held.
pub open spec fn consistent(m: WatchModel) -> bool {
    match m.phase {
        WatchPhase::AwaitEdge => m.state == ButtonState::Idle,
        WatchPhase::ConfirmPress => m.state == ButtonState::Idle,
        WatchPhase::Holding => m.state != ButtonState::Idle,
        WatchPhase::ConfirmRelease => m.state != ButtonState::Idle,
    }
}

/// Watcher and button after the first `i` samples of `samples`.
pub open spec fn model_at(
    start: WatchModel,
    samples: Seq<PinSample>,
    long_press_ms: u64,
    i: int,
) -> WatchModel
    decreases i,
{
    if i <= 0 {
        start
    } else {
        step_model(model_at(start, samples, long_press_ms, i - 1), samples[i - 1], long_press_ms)
    }
}

/// Event that sample `i` of `samples` produces.
pub open spec fn action_at(
    start: WatchModel,
    samples: Seq<PinSample>,
    long_press_ms: u64,
    i: int,
) -> ButtonAction {
    step_action(model_at(start, samples, long_press_ms, i), samples[i], long_press_ms)
}

/// Watcher and button stay in agreement over every sequence of samples.
pub proof fn lemma_consistency_is_kept(
    start: WatchModel,
    samples: Seq<PinSample>,
    long_press_ms: u64,
    i: int,
)
    requires
        consistent(start),
        0 <= i <= samples.len(),
    ensures
        consistent(model_at(start, samples, long_press_ms, i)),
    decreases i,
{
    if i > 0 {
        lemma_consistency_is_kept(start, samples, long_press_ms, i - 1);
    }
}

/// The states of a button are entered in one way only. Whatever the
/// sample: a button becomes long-pressed only from pressed; a release is
/// reported only of a button that is pressed or long-pressed, and leaves
/// it idle; a press is reported only of an idle button, and leaves it
/// pressed.
pub proof fn lemma_states_are_entered_in_order(
    m: WatchModel,
    sample: PinSample,
    long_press_ms: u64,
)
    ensures
        ({
            let after = step_model(m, sample, long_press_ms);
            let action = step_action(m, sample, long_press_ms);
            &&& after.state == ButtonState::LongPressed && m.state != ButtonState::LongPressed
                ==> m.state == ButtonState::Pressed && action == ButtonAction::LongPress
            &&& action == ButtonAction::LongPress ==> m.state == ButtonState::Pressed
                && after.state == ButtonState::LongPressed
            &&& action == ButtonAction::Release ==> m.state != ButtonState::Idle && after.state
                == ButtonState::Idle
            &&& action == ButtonAction::Press ==> m.state == ButtonState::Idle && after.state
                == ButtonState::Pressed
            &&& action == ButtonAction::NoAction ==> after.state == m.state
        }),
{
}

/// A bounce is swallowed. Whatever samples came before: when the pin is
/// high again at the end of the debounce interval that followed a falling
/// edge, the sample produces no event and leaves the button as it was;
/// when the pin is low again at the end of the debounce interval that
/// followed a rising level, the sample produces neither a press nor a
/// release and the button stays down.
pub proof fn lemma_bounce_is_swallowed(
    start: WatchModel,
    samples: Seq<PinSample>,
    long_press_ms: u64,
    i: int,
)
    requires
        consistent(start),
        0 <= i < samples.len(),
    ensures
        ({
            let before = model_at(start, samples, long_press_ms, i);
            let after = model_at(start, samples, long_press_ms, i + 1);
            let action = action_at(start, samples, long_press_ms, i);
            &&& before.phase == WatchPhase::ConfirmPress && !samples[i].is_low ==> {
                &&& action == ButtonAction::NoAction
                &&& after.state == before.state
                &&& after.last_action == before.last_action
                &&& after.phase == WatchPhase::AwaitEdge
            }
            &&& before.phase == WatchPhase::ConfirmRelease && samples[i].is_low ==> {
                &&& action != ButtonAction::Press
                &&& action != ButtonAction::Release
                &&& after.state != ButtonState::Idle
                &&& after.phase == WatchPhase::Holding
            }
        }),
{
    lemma_consistency_is_kept(start, samples, long_press_ms, i);
}

/// Only a level that outlasts the debounce interval makes an event.
/// Whatever samples came before: a press is reported only by the sample
/// that ends the debounce interval after a falling edge, and only if the
/// pin is low then; a release only by the sample that ends the debounce
/// interval after the pin was seen high, and only if it is high then.
pub proof fn lemma_events_need_confirmation(
    start: WatchModel,
    samples: Seq<PinSample>,
    long_press_ms: u64,
    i: int,
)
    requires
        0 <= i < samples.len(),
    ensures
        ({
            let before = model_at(start, samples, long_press_ms, i);
            let action = action_at(start, samples, long_press_ms, i);
            &&& action == ButtonAction::Press ==> before.phase == WatchPhase::ConfirmPress
                && samples[i].is_low
            &&& action == ButtonAction::Release ==> before.phase == WatchPhase::ConfirmRelease
                && !samples[i].is_low
        }),
{
}

/// No release is reported by the samples from `from` up to, not
/// including, `to`.
pub open spec fn no_release_between(
    start: WatchModel,
    samples: Seq<PinSample>,
    long_press_ms: u64,
    from: int,
    to: int,
) -> bool {
    forall|k: int|
        from <= k < to ==> #[trigger] action_at(start, samples, long_press_ms, k)
            != ButtonAction::Release
}

proof fn lemma_long_pressed_until_release(
    start: WatchModel,
    samples: Seq<PinSample>,
    long_press_ms: u64,
    i: int,
    j: int,
)
    requires
        0 <= i < j <= samples.len(),
        action_at(start, samples, long_press_ms, i) == ButtonAction::LongPress,
        no_release_between(start, samples, long_press_ms, i + 1, j),
    ensures
        model_at(start, samples, long_press_ms, j).state == ButtonState::LongPressed,
    decreases j - i,
{
    if j > i + 1 {
        lemma_long_pressed_until_release(start, samples, long_press_ms, i, j - 1);
        assert(action_at(start, samples, long_press_ms, j - 1) != ButtonAction::Release);
    }
}

/// At most one long press per press. Over every sequence of samples,
/// between two samples that each report a long press there is one that
/// reports a release.
pub proof fn lemma_one_long_press_per_hold(
    start: WatchModel,
    samples: Seq<PinSample>,
    long_press_ms: u64,
    i: int,
    j: int,
)
    requires
        0 <= i < j < samples.len(),
        action_at(start, samples, long_press_ms, i) == ButtonAction::LongPress,
        action_at(start, samples, long_press_ms, j) == ButtonAction::LongPress,
    ensures
        exists|k: int|
            i < k < j && #[trigger] action_at(start, samples, long_press_ms, k)
                == ButtonAction::Release,
{
    if no_release_between(start, samples, long_press_ms, i + 1, j) {
        lemma_long_pressed_until_release(start, samples, long_press_ms, i, j);
    }
}

/// The pin reads low in every sample from `from` on.
pub open spec fn held_from(samples: Seq<PinSample>, from: int) -> bool {
    forall|k: int| from <= k < samples.len() ==> (#[trigger] samples[k]).is_low
}

/// The first sample after the confirming one at which a long-press timer
/// started by sample 0 has run out, or the length of `samples` if there
/// is none before `upto`.
pub open spec fn first_due(samples: Seq<PinSample>, long_press_ms: u64, upto: int) -> int
    decreases upto,
{
    if upto <= 1 {
        samples.len() as int
    } else {
        let earlier = first_due(samples, long_press_ms, upto - 1);
        if earlier < samples.len() {
            earlier
        } else if long_press_due(samples[upto - 1], samples[0].now_ms, long_press_ms) {
            upto - 1
        } else {
            samples.len() as int
        }
    }
}

proof fn lemma_first_due(samples: Seq<PinSample>, long_press_ms: u64, upto: int)
    requires
        1 <= upto <= samples.len(),
    ensures
        ({
            let f = first_due(samples, long_press_ms, upto);
            &&& f == samples.len() || 1 <= f < upto
            &&& f < samples.len() ==> long_press_due(samples[f], samples[0].now_ms, long_press_ms)
            &&& forall|k: int|
                1 <= k < upto && k < f ==> !long_press_due(
                    #[trigger] samples[k],
                    samples[0].now_ms,
                    long_press_ms,
                )
        }),
    decreases upto,
{
    if upto > 1 {
        lemma_first_due(samples, long_press_ms, upto - 1);
    }
}

proof fn lemma_hold_before_due(
    start: WatchModel,
    samples: Seq<PinSample>,
    long_press_ms: u64,
    f: int,
    n: int,
)
    requires
        start.phase == WatchPhase::ConfirmPress,
        start.state == ButtonState::Idle,
        held_from(samples, 0),
        1 <= n <= f <= samples.len(),
        forall|k: int|
            1 <= k < f ==> !long_press_due(#[trigger] samples[k], samples[0].now_ms, long_press_ms),
    ensures
        ({
            let m = model_at(start, samples, long_press_ms, n);
            &&& m.phase == WatchPhase::Holding
            &&& m.state == ButtonState::Pressed
            &&& m.pressed_at_ms == samples[0].now_ms
        }),
        forall|k: int|
            1 <= k < n ==> #[trigger] action_at(start, samples, long_press_ms, k)
                == ButtonAction::NoAction,
    decreases n,
{
    assert(samples[0].is_low);
    if n > 1 {
        lemma_hold_before_due(start, samples, long_press_ms, f, n - 1);
        assert(samples[n - 1].is_low);
        assert(!long_press_due(samples[n - 1], samples[0].now_ms, long_press_ms));
    }
}

proof fn lemma_hold_after_due(
    start: WatchModel,
    samples: Seq<PinSample>,
    long_press_ms: u64,
    f: int,
    n: int,
)
    requires
        held_from(samples, 0),
        1 <= f < n <= samples.len(),
        model_at(start, samples, long_press_ms, f + 1).phase == WatchPhase::Holding,
        model_at(start, samples, long_press_ms, f + 1).state == ButtonState::LongPressed,
    ensures
        ({
            let m = model_at(start, samples, long_press_ms, n);
            &&& m.phase == WatchPhase::Holding
            &&& m.state == ButtonState::LongPressed
        }),
        forall|k: int|
            f < k < n ==> #[trigger] action_at(start, samples, long_press_ms, k)
                == ButtonAction::NoAction,
    decreases n,
{
    if n > f + 1 {
        lemma_hold_after_due(start, samples, long_press_ms, f, n - 1);
        assert(samples[n - 1].is_low);
    }
}

/// A confirmed press that is held past the threshold gives exactly one
/// long press. Start where a falling edge was just seen on an idle
/// button. Let the pin read low in every sample: the first confirms the
/// press, the others are polls of the held button. If at one of these
/// polls the time since the confirmation has reached `long_press_ms`,
/// then the first sample reports the press, exactly one sample reports a
/// long press, and no sample reports a release.
pub proof fn lemma_hold_gives_one_long_press(
    start: WatchModel,
    samples: Seq<PinSample>,
    long_press_ms: u64,
    due: int,
)
    requires
        start.phase == WatchPhase::ConfirmPress,
        start.state == ButtonState::Idle,
        held_from(samples, 0),
        1 <= due < samples.len(),
        long_press_due(samples[due], samples[0].now_ms, long_press_ms),
    ensures
        action_at(start, samples, long_press_ms, 0) == ButtonAction::Press,
        exists|f: int|
            {
                &&& 1 <= f <= due
                &&& #[trigger] action_at(start, samples, long_press_ms, f)
                    == ButtonAction::LongPress
                &&& forall|k: int|
                    0 <= k < samples.len() && k != f ==> #[trigger] action_at(
                        start,
                        samples,
                        long_press_ms,
                        k,
                    ) != ButtonAction::LongPress
            },
        forall|k: int|
            0 <= k < samples.len() ==> #[trigger] action_at(start, samples, long_press_ms, k)
                != ButtonAction::Release,
{
    let len = samples.len() as int;
    lemma_first_due(samples, long_press_ms, len);
    let f = first_due(samples, long_press_ms, len);
    assert(1 <= f <= due) by {
        if f > due {
            assert(!long_press_due(samples[due], samples[0].now_ms, long_press_ms));
        }
    }
    assert(samples[0].is_low);
    assert(samples[f].is_low);
    lemma_hold_before_due(start, samples, long_press_ms, f, f);
    assert(action_at(start, samples, long_press_ms, f) == ButtonAction::LongPress);
    if f + 1 < len {
        lemma_hold_after_due(start, samples, long_press_ms, f, len);
    }
    assert forall|k: int| 0 <= k < len && k != f implies #[trigger] action_at(
        start,
        samples,
        long_press_ms,
        k,
    ) != ButtonAction::LongPress by {}
    assert forall|k: int| 0 <= k < len implies #[trigger] action_at(
        start,
        samples,
        long_press_ms,
        k,
    ) != ButtonAction::Release by {}
}

} // verus!
