//! Polled button policy: a button is idle, pressed, or just released.
//!
//! Here a button is not debounced by edges and timers. Its task reads the
//! pin every 20 ms, marks the button pressed while the pin is low, and on
//! the way back up marks it released for 50 ms before it is idle again.
//! The states of all buttons are shared, so that other tasks can see
//! which one is down.

use vstd::prelude::*;

verus! {

/// Number of buttons whose states are shared.
pub const BUTTON_COUNT: usize = 6;

/// Milliseconds between two polls of a pin.
pub const POLL_INTERVAL_MS: u64 = 20;

/// Milliseconds that a button stays `Released` before it is idle again.
pub const RELEASE_HOLD_MS: u64 = 50;

/// Button state for tracking button status.
#[derive(Debug, Clone, Copy, PartialEq, Eq, Structural)]
pub enum ButtonState {
    Idle,
    Pressed,
    Released,
}

/// A button: its name, its number, and the state it is in.
#[derive(Debug, PartialEq, Eq)]
pub struct Button {
    name: &'static str,
    id: usize,
    state: ButtonState,
}

/// What a task has to say about its button after a poll.
#[derive(Debug, Clone, Copy, PartialEq, Eq, Structural)]
pub enum PollEvent {
    Quiet,
    Pressed,
    Released,
}

/// Answer of `button_task` to one poll: the event to report and the time
/// to sleep before the next call.
#[derive(Debug, Clone, Copy, PartialEq, Eq, Structural)]
pub struct PollStep {
    pub event: PollEvent,
    pub delay_ms: u64,
}

/// Answer of `wait_for_button_press`.
#[derive(Debug, Clone, Copy, PartialEq, Eq, Structural)]
pub enum PressWait {
    /// The button of this index is down.
    Ready(usize),
    /// No button is down: sleep this many milliseconds and ask again.
    Sleep(u64),
}

/// State of a button after a poll that found the pin low (`pressed`) or
/// high.
pub open spec fn state_after_poll(state: ButtonState, pressed: bool) -> ButtonState {
    match state {
        ButtonState::Released => ButtonState::Idle,
        ButtonState::Pressed => if pressed {
            ButtonState::Pressed
        } else {
            ButtonState::Released
        },
        ButtonState::Idle => if pressed {
            ButtonState::Pressed
        } else {
            ButtonState::Idle
        },
    }
}

/// Event that a poll gives rise to.
pub open spec fn event_of_poll(state: ButtonState, pressed: bool) -> PollEvent {
    match state {
        ButtonState::Released => PollEvent::Quiet,
        ButtonState::Pressed => if pressed {
            PollEvent::Quiet
        } else {
            PollEvent::Released
        },
        ButtonState::Idle => if pressed {
            PollEvent::Pressed
        } else {
            PollEvent::Quiet
        },
    }
}

/// Time to sleep after a poll: the release hold after a release, the poll
/// interval otherwise.
pub open spec fn delay_after_poll(state: ButtonState, pressed: bool) -> u64 {
    if state == ButtonState::Pressed && !pressed {
        RELEASE_HOLD_MS
    } else {
        POLL_INTERVAL_MS
    }
}

impl Button {
    pub closed spec fn spec_name(&self) -> &'static str {
        self.name
    }

    pub closed spec fn spec_id(&self) -> usize {
        self.id
    }

    pub closed spec fn spec_state(&self) -> ButtonState {
        self.state
    }

    /// Create a new button. It starts idle.
    pub fn new(name: &'static str, id: usize) -> (button: Button)
        ensures
            button.spec_name() == name,
            button.spec_id() == id,
            button.spec_state() == ButtonState::Idle,
    {
        Button { name, id, state: ButtonState::Idle }
    }

    /// Whether a reading of the pin means that the button is down. The
    /// wiring is active-low, so a low level does; a reading that failed
    /// is taken as not pressed.
    pub fn is_pressed(&self, is_low: Option<bool>) -> (pressed: bool)
        ensures
            pressed == (is_low == Some(true)),
    {
        match is_low {
            Some(level) => level,
            None => false,
        }
    }

    #[verifier::when_used_as_spec(spec_id)]
    pub fn id(&self) -> (id: usize)
        ensures
            id == self.spec_id(),
    {
        self.id
    }

    #[verifier::when_used_as_spec(spec_name)]
    pub fn name(&self) -> (name: &'static str)
        ensures
            name == self.spec_name(),
    {
        self.name
    }

    pub fn set_state(&mut self, new_state: ButtonState)
        ensures
            final(self).spec_state() == new_state,
            final(self).spec_id() == old(self).spec_id(),
            final(self).spec_name() == old(self).spec_name(),
    {
        self.state = new_state;
    }

    #[verifier::when_used_as_spec(spec_state)]
    pub fn get_state(&self) -> (state: ButtonState)
        ensures
            state == self.spec_state(),
    {
        self.state
    }
}

/// One round of a button's task. `pressed` is what the pin said just
/// now. A button that was marked released has had its hold and becomes
/// idle, whatever the pin says. Otherwise the button follows the pin:
/// down, it is marked pressed; up after having been pressed, it is
/// marked released.
pub fn button_task(button: &mut Button, pressed: bool) -> (step: PollStep)
    ensures
        final(button).get_state() == state_after_poll(old(button).get_state(), pressed),
        step.event == event_of_poll(old(button).get_state(), pressed),
        step.delay_ms == delay_after_poll(old(button).get_state(), pressed),
        final(button).id() == old(button).id(),
        final(button).name() == old(button).name(),
{
    if button.get_state() == ButtonState::Released {
        button.set_state(ButtonState::Idle);
        return PollStep { event: PollEvent::Quiet, delay_ms: POLL_INTERVAL_MS };
    }
    if pressed {
        if button.get_state() != ButtonState::Pressed {
            button.set_state(ButtonState::Pressed);
            return PollStep { event: PollEvent::Pressed, delay_ms: POLL_INTERVAL_MS };
        }
    } else {
        if button.get_state() == ButtonState::Pressed {
            button.set_state(ButtonState::Released);
            return PollStep { event: PollEvent::Released, delay_ms: RELEASE_HOLD_MS };
        }
    }
    PollStep { event: PollEvent::Quiet, delay_ms: POLL_INTERVAL_MS }
}

/// Index of the first pressed button at or after `from`, if there is
/// one.
pub open spec fn first_pressed_from(states: Seq<ButtonState>, from: int) -> Option<int>
    decreases states.len() - from,
{
    if from < 0 || from >= states.len() {
        None
    } else if states[from] == ButtonState::Pressed {
        Some(from)
    } else {
        first_pressed_from(states, from + 1)
    }
}

/// Index of the first pressed button, if there is one.
pub open spec fn first_pressed(states: Seq<ButtonState>) -> Option<int> {
    first_pressed_from(states, 0)
}

/// Get the active button index: the first one that is pressed.
pub fn get_active_button(states: &[ButtonState; 6]) -> (active: Option<usize>)
    ensures
        active matches Some(i) ==> i < BUTTON_COUNT && states@[i as int] == ButtonState::Pressed
            && forall|j: int| 0 <= j < i ==> states@[j] != ButtonState::Pressed,
        active is None ==> forall|j: int|
            0 <= j < BUTTON_COUNT ==> states@[j] != ButtonState::Pressed,
        active matches Some(i) ==> first_pressed(states@) == Some(i as int),
        active is None <==> first_pressed(states@) is None,
{
    let mut idx: usize = 0;
    while idx < BUTTON_COUNT
        invariant
            idx <= BUTTON_COUNT,
            states@.len() == BUTTON_COUNT,
            forall|j: int| 0 <= j < idx ==> states@[j] != ButtonState::Pressed,
            first_pressed(states@) == first_pressed_from(states@, idx as int),
        decreases BUTTON_COUNT - idx,
    {
        if states[idx] == ButtonState::Pressed {
            return Some(idx);
        }
        idx = idx + 1;
    }
    None
}

/// One round of waiting for a press: the index of the first button that
/// is down, or the time to sleep before looking again.
pub fn wait_for_button_press(states: &[ButtonState; 6]) -> (wait: PressWait)
    ensures
        wait matches PressWait::Ready(i) ==> i < BUTTON_COUNT && states@[i as int]
            == ButtonState::Pressed && forall|j: int|
            0 <= j < i ==> states@[j] != ButtonState::Pressed,
        wait matches PressWait::Sleep(ms) ==> ms == POLL_INTERVAL_MS && forall|j: int|
            0 <= j < BUTTON_COUNT ==> states@[j] != ButtonState::Pressed,
{
    match get_active_button(states) {
        Some(idx) => PressWait::Ready(idx),
        None => PressWait::Sleep(POLL_INTERVAL_MS),
    }
}

} // verus!
