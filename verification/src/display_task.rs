//! The display loop of the six-button layout, one tick at a time.
//!
//! A tick does two things in this order. It redraws the current screen
//! if the selected button is not the one that the layout marks. Then it
//! looks for the first button that is pressed and follows it to another
//! screen where it leads to one. Timers and the panel are the caller's:
//! it replays what a tick recorded and sleeps until the next.

use vstd::prelude::*;
use crate::display::COLOR_TEXT;
use crate::panel::{
    box_steps, buttons_steps, clear_steps, main_steps, startup_steps, text_steps, title_steps,
    ButtonLayout, ButtonLayoutView, Display, DrawStepView,
};
use crate::polled_buttons::{first_pressed, get_active_button, ButtonState};

verus! {

/// Milliseconds that the startup screen stays before the main screen.
pub const STARTUP_HOLD_MS: u64 = 2000;

/// Milliseconds between two ticks.
pub const DISPLAY_TICK_MS: u64 = 50;

/// The screens of the menu system.
#[derive(Debug, Clone, Copy, PartialEq, Eq, Structural)]
pub enum MenuScreen {
    Startup,
    Main,
    Trip,
    Settings,
}

/// What the loop carries from tick to tick.
#[derive(Debug, PartialEq, Eq)]
pub struct DisplayTask {
    pub current_screen: MenuScreen,
    pub layout: ButtonLayout,
}

/// The loop's state as plain values.
pub struct DisplayTaskView {
    pub current_screen: MenuScreen,
    pub layout: ButtonLayoutView,
}

impl View for DisplayTask {
    type V = DisplayTaskView;

    open spec fn view(&self) -> DisplayTaskView {
        DisplayTaskView { current_screen: self.current_screen, layout: self.layout@ }
    }
}

pub open spec fn main_labels() -> Seq<Seq<char>> {
    seq!["Menu"@, "Trip"@, "Set"@, "Mic"@, "Up"@, "Down"@]
}

pub open spec fn trip_labels() -> Seq<Seq<char>> {
    seq!["Back"@, "New"@, "View"@, "Map"@, "Up"@, "Down"@]
}

pub open spec fn settings_labels() -> Seq<Seq<char>> {
    seq!["Back"@, "WiFi"@, "LED"@, "User"@, "Up"@, "Down"@]
}

/// Button labels of the main screen.
pub fn main_buttons() -> (labels: [&'static str; 6])
    ensures
        Seq::new(6, |i: int| labels@[i]@) == main_labels(),
{
    let labels = ["Menu", "Trip", "Set", "Mic", "Up", "Down"];
    assert(Seq::new(6, |i: int| labels@[i]@) =~= main_labels());
    labels
}

/// Button labels of the trip screen.
pub fn trip_buttons() -> (labels: [&'static str; 6])
    ensures
        Seq::new(6, |i: int| labels@[i]@) == trip_labels(),
{
    let labels = ["Back", "New", "View", "Map", "Up", "Down"];
    assert(Seq::new(6, |i: int| labels@[i]@) =~= trip_labels());
    labels
}

/// Button labels of the settings screen.
pub fn settings_buttons() -> (labels: [&'static str; 6])
    ensures
        Seq::new(6, |i: int| labels@[i]@) == settings_labels(),
{
    let labels = ["Back", "WiFi", "LED", "User", "Up", "Down"];
    assert(Seq::new(6, |i: int| labels@[i]@) =~= settings_labels());
    labels
}

/// The labels that a screen shows. The startup screen has none of its
/// own and keeps those that are there.
pub open spec fn labels_of(screen: MenuScreen, kept: Seq<Seq<char>>) -> Seq<Seq<char>> {
    match screen {
        MenuScreen::Startup => kept,
        MenuScreen::Main => main_labels(),
        MenuScreen::Trip => trip_labels(),
        MenuScreen::Settings => settings_labels(),
    }
}

/// The state after the first half of a tick: a selection that differs
/// from the marked button becomes the marked one.
pub open spec fn after_selection(task: DisplayTaskView, current_button: nat) -> DisplayTaskView {
    if current_button == task.layout.active_index {
        task
    } else {
        DisplayTaskView {
            current_screen: task.current_screen,
            layout: ButtonLayoutView {
                labels: labels_of(task.current_screen, task.layout.labels),
                active_index: current_button,
            },
        }
    }
}

/// What the first half of a tick draws: nothing if the selection is the
/// marked button, otherwise the current screen with the new mark.
pub open spec fn selection_steps(task: DisplayTaskView, current_button: nat) -> Seq<DrawStepView> {
    if current_button == task.layout.active_index {
        Seq::empty()
    } else {
        let layout = after_selection(task, current_button).layout;
        match task.current_screen {
            MenuScreen::Startup => startup_steps(),
            MenuScreen::Main => main_steps(layout),
            MenuScreen::Trip => title_steps("Trip Planner"@) + buttons_steps(layout),
            MenuScreen::Settings => title_steps("Settings"@) + buttons_steps(layout),
        }
    }
}

/// The screen that a pressed button leads to, if it leads anywhere: from
/// the main screen the second button goes to the trips and the third to
/// the settings; from either of these the first button goes back.
pub open spec fn destination(screen: MenuScreen, pressed: Option<int>) -> Option<MenuScreen> {
    if screen == MenuScreen::Main && pressed == Some(1int) {
        Some(MenuScreen::Trip)
    } else if screen == MenuScreen::Main && pressed == Some(2int) {
        Some(MenuScreen::Settings)
    } else if screen == MenuScreen::Trip && pressed == Some(0int) {
        Some(MenuScreen::Main)
    } else if screen == MenuScreen::Settings && pressed == Some(0int) {
        Some(MenuScreen::Main)
    } else {
        None
    }
}

/// The layout of a screen that was just entered: its labels, the first
/// button marked.
pub open spec fn entry_layout(screen: MenuScreen, kept: Seq<Seq<char>>) -> ButtonLayoutView {
    ButtonLayoutView { labels: labels_of(screen, kept), active_index: 0 }
}

/// The state after the second half of a tick.
pub open spec fn after_press(task: DisplayTaskView, pressed: Option<int>) -> DisplayTaskView {
    match destination(task.current_screen, pressed) {
        Some(screen) => DisplayTaskView {
            current_screen: screen,
            layout: entry_layout(screen, task.layout.labels),
        },
        None => task,
    }
}

/// The picture of a screen that is entered.
pub open spec fn entry_steps(screen: MenuScreen, layout: ButtonLayoutView) -> Seq<DrawStepView> {
    match screen {
        MenuScreen::Startup => Seq::empty(),
        MenuScreen::Main => main_steps(layout),
        MenuScreen::Trip => clear_steps() + title_steps("Trip Planner"@) + box_steps(
            5,
            25,
            150,
            68,
        ) + text_steps("No trips scheduled"@, 20, 50, COLOR_TEXT, false) + buttons_steps(layout),
        MenuScreen::Settings => clear_steps() + title_steps("Settings"@) + box_steps(
            5,
            25,
            150,
            68,
        ) + text_steps("WiFi: Not Connected"@, 10, 40, COLOR_TEXT, false) + text_steps(
            "LED: Medium"@,
            10,
            55,
            COLOR_TEXT,
            false,
        ) + text_steps("User: Guest"@, 10, 70, COLOR_TEXT, false) + buttons_steps(layout),
    }
}

/// What the second half of a tick draws: the screen that the pressed
/// button leads to, or nothing.
pub open spec fn press_steps(task: DisplayTaskView, pressed: Option<int>) -> Seq<DrawStepView> {
    match destination(task.current_screen, pressed) {
        Some(screen) => entry_steps(screen, entry_layout(screen, task.layout.labels)),
        None => Seq::empty(),
    }
}

impl DisplayTask {
    /// Begins with the startup screen.
    pub fn start(lcd: &mut Display) -> (task: DisplayTask)
        ensures
            task@.current_screen == MenuScreen::Startup,
            task@.layout == entry_layout(MenuScreen::Main, Seq::empty()),
            final(lcd)@ == old(lcd)@ + startup_steps(),
    {
        lcd.draw_startup();
        let task = DisplayTask {
            current_screen: MenuScreen::Startup,
            layout: ButtonLayout { labels: main_buttons(), active_index: 0 },
        };
        assert(task@.layout.labels =~= main_labels());
        task
    }

    /// Switches to the main screen, once the startup screen has had its
    /// time.
    pub fn show_main(&mut self, lcd: &mut Display)
        ensures
            final(self)@.current_screen == MenuScreen::Main,
            final(self)@.layout == entry_layout(MenuScreen::Main, Seq::empty()),
            final(lcd)@ == old(lcd)@ + main_steps(final(self)@.layout),
    {
        self.current_screen = MenuScreen::Main;
        self.layout = ButtonLayout { labels: main_buttons(), active_index: 0 };
        assert(self@.layout.labels =~= main_labels());
        lcd.draw_main_screen(&self.layout);
    }

    /// Marks `current_button` and draws the current screen again, if the
    /// layout marks another button.
    fn follow_selection(&mut self, lcd: &mut Display, current_button: usize)
        ensures
            final(self)@ == after_selection(old(self)@, current_button as nat),
            final(lcd)@ == old(lcd)@ + selection_steps(old(self)@, current_button as nat),
    {
        if current_button != self.layout.active_index {
            self.layout.active_index = current_button;
            match self.current_screen {
                MenuScreen::Startup => {
                    lcd.draw_startup();
                },
                MenuScreen::Main => {
                    self.layout.labels = main_buttons();
                    lcd.draw_main_screen(&self.layout);
                },
                MenuScreen::Trip => {
                    self.layout.labels = trip_buttons();
                    lcd.draw_title("Trip Planner");
                    lcd.draw_buttons(&self.layout);
                },
                MenuScreen::Settings => {
                    self.layout.labels = settings_buttons();
                    lcd.draw_title("Settings");
                    lcd.draw_buttons(&self.layout);
                },
            }
            assert(self@.layout.labels =~= labels_of(
                old(self)@.current_screen,
                old(self)@.layout.labels,
            ));
            assert(lcd@ =~= old(lcd)@ + selection_steps(old(self)@, current_button as nat));
        } else {
            assert(lcd@ =~= old(lcd)@ + selection_steps(old(self)@, current_button as nat));
        }
    }

    /// Follows the pressed button to the screen it leads to, if any.
    fn follow_press(&mut self, lcd: &mut Display, pressed: Option<usize>)
        ensures
            final(self)@ == after_press(
                old(self)@,
                match pressed {
                    Some(i) => Some(i as int),
                    None => None,
                },
            ),
            final(lcd)@ == old(lcd)@ + press_steps(
                old(self)@,
                match pressed {
                    Some(i) => Some(i as int),
                    None => None,
                },
            ),
    {
        let ghost spec_pressed: Option<int> = match pressed {
            Some(i) => Some(i as int),
            None => None,
        };
        let index: usize = match pressed {
            Some(i) => i,
            None => {
                assert(lcd@ =~= old(lcd)@ + press_steps(old(self)@, spec_pressed));
                return ;
            },
        };
        match (self.current_screen, index) {
            (MenuScreen::Main, 1) => {
                self.current_screen = MenuScreen::Trip;
                self.layout.labels = trip_buttons();
                self.layout.active_index = 0;
                assert(self@.layout.labels =~= trip_labels());
                lcd.clear();
                lcd.draw_title("Trip Planner");
                lcd.draw_box(5, 25, 150, 68);
                lcd.draw_text("No trips scheduled", 20, 50, COLOR_TEXT, false);
                lcd.draw_buttons(&self.layout);
            },
            (MenuScreen::Main, 2) => {
                self.current_screen = MenuScreen::Settings;
                self.layout.labels = settings_buttons();
                self.layout.active_index = 0;
                assert(self@.layout.labels =~= settings_labels());
                lcd.clear();
                lcd.draw_title("Settings");
                lcd.draw_box(5, 25, 150, 68);
                lcd.draw_text("WiFi: Not Connected", 10, 40, COLOR_TEXT, false);
                lcd.draw_text("LED: Medium", 10, 55, COLOR_TEXT, false);
                lcd.draw_text("User: Guest", 10, 70, COLOR_TEXT, false);
                lcd.draw_buttons(&self.layout);
            },
            (MenuScreen::Trip, 0) => {
                self.current_screen = MenuScreen::Main;
                self.layout.labels = main_buttons();
                self.layout.active_index = 0;
                assert(self@.layout.labels =~= main_labels());
                lcd.draw_main_screen(&self.layout);
            },
            (MenuScreen::Settings, 0) => {
                self.current_screen = MenuScreen::Main;
                self.layout.labels = main_buttons();
                self.layout.active_index = 0;
                assert(self@.layout.labels =~= main_labels());
                lcd.draw_main_screen(&self.layout);
            },
            _ => {},
        }
        assert(lcd@ =~= old(lcd)@ + press_steps(old(self)@, spec_pressed));
    }
}

/// One tick of the display loop. `current_button` is the button that is
/// selected, `button_states` what the buttons are doing right now. First
/// the mark follows the selection, then the first pressed button is
/// followed to its screen; a button that leads nowhere from the current
/// screen is ignored, and so is every pressed button behind the first.
pub fn display_task(
    task: &mut DisplayTask,
    lcd: &mut Display,
    current_button: usize,
    button_states: &[ButtonState; 6],
)
    ensures
        final(task)@ == after_press(
            after_selection(old(task)@, current_button as nat),
            first_pressed(button_states@),
        ),
        final(lcd)@ == old(lcd)@ + selection_steps(old(task)@, current_button as nat)
            + press_steps(
            after_selection(old(task)@, current_button as nat),
            first_pressed(button_states@),
        ),
{
    task.follow_selection(lcd, current_button);
    let pressed = get_active_button(button_states);
    task.follow_press(lcd, pressed);
}

} // verus!
