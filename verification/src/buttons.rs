//! Three-state button engine: a logical button and the debounce watcher
//! that drives it from raw, active-low pin samples.

use vstd::prelude::*;

verus! {

/// Debounce interval in milliseconds: a level has to be seen again after
/// this long before a transition is accepted.
pub const DEBOUNCE_MS: u64 = 50;

/// Interval in milliseconds between two polls while a button is held.
pub const POLL_MS: u64 = 10;

/// Logical event produced by a button.
#[derive(Debug, Clone, Copy, PartialEq, Eq, Structural)]
pub enum ButtonAction {
    Press,
    Release,
    LongPress,
    NoAction,
}

/// Logical state of a button.
#[derive(Debug, Clone, Copy, PartialEq, Eq, Structural)]
pub enum ButtonState {
    Idle,
    Pressed,
    LongPressed,
}

/// State that `update_state` leaves a button in.
pub open spec fn state_after_level(state: ButtonState, is_low: bool) -> ButtonState {
    match (state, is_low) {
        (ButtonState::Idle, true) => ButtonState::Pressed,
        (ButtonState::Pressed, false) => ButtonState::Idle,
        (ButtonState::LongPressed, false) => ButtonState::Idle,
        _ => state,
    }
}

/// Event that `update_state` reports for a confirmed level.
pub open spec fn action_for_level(state: ButtonState, is_low: bool) -> ButtonAction {
    match (state, is_low) {
        (ButtonState::Idle, true) => ButtonAction::Press,
        (ButtonState::Pressed, false) => ButtonAction::Release,
        (ButtonState::LongPressed, false) => ButtonAction::Release,
        _ => ButtonAction::NoAction,
    }
}

#[derive(Debug, PartialEq, Eq)]
pub struct Button {
    pub state: ButtonState,
    pub last_action: ButtonAction,
    pub id: usize,
    pub name: &'static str,
}

impl Button {
    pub fn new(id: usize, name: &'static str) -> (button: Button)
        ensures
            button.state == ButtonState::Idle,
            button.last_action == ButtonAction::NoAction,
            button.id == id,
            button.name == name,
    {
        Button { state: ButtonState::Idle, last_action: ButtonAction::NoAction, id, name }
    }

    /// Feeds one confirmed pin level (`true` is low, that is pressed) to
    /// the button and reports the event it causes.
    pub fn update_state(&mut self, is_low: bool) -> (action: ButtonAction)
        ensures
            action == action_for_level(old(self).state, is_low),
            final(self).state == state_after_level(old(self).state, is_low),
            final(self).last_action == action,
            final(self).id == old(self).id,
            final(self).name == old(self).name,
    {
        let action = match (self.state, is_low) {
            (ButtonState::Idle, true) => {
                self.state = ButtonState::Pressed;
                ButtonAction::Press
            },
            (ButtonState::Pressed, false) | (ButtonState::LongPressed, false) => {
                self.state = ButtonState::Idle;
                ButtonAction::Release
            },
            _ => ButtonAction::NoAction,
        };
        self.last_action = action;
        action
    }

    /// Reports that the long-press timer has run out. Only a button that
    /// is `Pressed` reacts; any other is left as it is.
    pub fn process_long_press(&mut self, duration_ms: u64) -> (action: ButtonAction)
        ensures
            old(self).state == ButtonState::Pressed ==> {
                &&& action == ButtonAction::LongPress
                &&& final(self).state == ButtonState::LongPressed
                &&& final(self).last_action == ButtonAction::LongPress
            },
            old(self).state != ButtonState::Pressed ==> {
                &&& action == ButtonAction::NoAction
                &&& final(self).state == old(self).state
                &&& final(self).last_action == old(self).last_action
            },
            final(self).id == old(self).id,
            final(self).name == old(self).name,
    {
        if self.state == ButtonState::Pressed {
            self.state = ButtonState::LongPressed;
            self.last_action = ButtonAction::LongPress;
            return ButtonAction::LongPress;
        }
        ButtonAction::NoAction
    }
}

} // verus!
