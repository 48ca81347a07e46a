//! The shared user-interface state: what the device is showing and which
//! control is selected.
//!
//! There is one such record per device. Button tasks write it, the
//! display and LED tasks read it. Keeping that one record, and guarding
//! it, is the caller's part; this file says what its values are and how
//! a key press changes them.

use vstd::prelude::*;
use vstd::string::*;
use crate::buttons::ButtonAction;

verus! {

/// Number of physical controls.
pub const NUM_BUTTONS: usize = 6;

#[derive(PartialEq, Eq, Clone, Copy, Debug, Structural)]
pub enum Menu {
    Main,
    Trip,
    Settings,
}

#[derive(Debug, Clone, PartialEq, Eq)]
pub struct UIState {
    pub current_menu: Menu,
    pub active_button: usize,
    pub user_name: String,
    pub wifi_connected: bool,
}

/// A `UIState` as plain values.
pub struct UIStateView {
    pub current_menu: Menu,
    pub active_button: nat,
    pub user_name: Seq<char>,
    pub wifi_connected: bool,
}

impl View for UIState {
    type V = UIStateView;

    open spec fn view(&self) -> UIStateView {
        UIStateView {
            current_menu: self.current_menu,
            active_button: self.active_button as nat,
            user_name: self.user_name@,
            wifi_connected: self.wifi_connected,
        }
    }
}

impl UIState {
    /// The selected control is one of the controls there are.
    pub open spec fn wf(self) -> bool {
        self.active_button < NUM_BUTTONS
    }
}

/// The state a device starts in: main menu, first control selected, a
/// guest as user, no network.
pub open spec fn initial_ui_state() -> UIStateView {
    UIStateView {
        current_menu: Menu::Main,
        active_button: 0,
        user_name: "Guest"@,
        wifi_connected: false,
    }
}

/// The menu shown after the key of index `key_index` was pressed: the
/// first three keys each lead to a menu, the others leave it.
pub open spec fn menu_after_key(menu: Menu, key_index: nat) -> Menu {
    if key_index == 0 {
        Menu::Main
    } else if key_index == 1 {
        Menu::Trip
    } else if key_index == 2 {
        Menu::Settings
    } else {
        menu
    }
}

pub fn init_ui_state() -> (state: UIState)
    ensures
        state@ == initial_ui_state(),
        state.wf(),
{
    UIState {
        current_menu: Menu::Main,
        active_button: 0,
        user_name: String::from_str("Guest"),
        wifi_connected: false,
    }
}

/// Hands out the state held in `slot`, putting the initial state there
/// first if the slot is empty. The slot is filled from then on, and
/// whatever the caller does to the state handed out is what the slot
/// holds afterwards.
pub fn get_ui_state(slot: &mut Option<UIState>) -> (state: &mut UIState)
    ensures
        *old(slot) is Some ==> *state == (*old(slot))->0,
        *old(slot) is None ==> state@ == initial_ui_state() && state.wf(),
        *final(slot) == Some(*final(state)),
{
    if slot.is_none() {
        *slot = Some(init_ui_state());
    }
    slot.as_mut().unwrap()
}

/// The state after the key of index `key_index` was pressed: that
/// control is selected and the menu is the one the key leads to.
pub open spec fn ui_after_key(state: UIStateView, key_index: nat) -> UIStateView {
    UIStateView {
        current_menu: menu_after_key(state.current_menu, key_index),
        active_button: key_index,
        user_name: state.user_name,
        wifi_connected: state.wifi_connected,
    }
}

/// The state after an event of the key of index `key_index`: a press
/// changes it, every other event leaves it.
pub open spec fn ui_after_event(
    state: UIStateView,
    key_index: nat,
    action: ButtonAction,
) -> UIStateView {
    if action == ButtonAction::Press {
        ui_after_key(state, key_index)
    } else {
        state
    }
}

impl UIState {
    /// Records that the key of index `key_index` was pressed: that
    /// control becomes the selected one, and the first three keys switch
    /// to their menu. Nothing else changes the menu.
    pub fn key_pressed(&mut self, key_index: usize)
        requires
            key_index < NUM_BUTTONS,
        ensures
            final(self).wf(),
            final(self)@.active_button == key_index,
            final(self)@.current_menu == menu_after_key(old(self)@.current_menu, key_index as nat),
            final(self)@.user_name == old(self)@.user_name,
            final(self)@.wifi_connected == old(self)@.wifi_connected,
            final(self)@ == ui_after_key(old(self)@, key_index as nat),
    {
        self.active_button = key_index;
        if key_index == 0 {
            self.current_menu = Menu::Main;
        } else if key_index == 1 {
            self.current_menu = Menu::Trip;
        } else if key_index == 2 {
            self.current_menu = Menu::Settings;
        }
    }
}

/// Brings a button event into the state. Only a press counts: it selects
/// the control and switches the menu as `key_pressed` does. A release, a
/// long press and no event at all leave the state exactly as it was.
pub fn apply_key_event(ui_state: &mut UIState, key_index: usize, action: ButtonAction)
    requires
        key_index < NUM_BUTTONS,
    ensures
        final(ui_state)@ == ui_after_event(old(ui_state)@, key_index as nat, action),
        action == ButtonAction::Press ==> final(ui_state).wf(),
        action != ButtonAction::Press ==> *final(ui_state) == *old(ui_state),
{
    if action == ButtonAction::Press {
        ui_state.key_pressed(key_index);
    }
}

} // verus!
