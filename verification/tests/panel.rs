use izzymonitor::display::{
    DrawOp, Font, COLOR_BACKGROUND, COLOR_BORDER, COLOR_BUTTON, COLOR_TEXT, COLOR_WHITE,
};
use izzymonitor::display_task::{
    display_task, main_buttons, settings_buttons, trip_buttons, DisplayTask, MenuScreen,
    DISPLAY_TICK_MS, STARTUP_HOLD_MS,
};
use izzymonitor::panel::{ButtonLayout, Display, DrawStep};
use izzymonitor::polled_buttons::ButtonState;

fn text(text: &str, x: i32, y: i32, font: Font, color: u16, centered: bool) -> DrawOp {
    DrawOp::Text { text: text.to_string(), x, y, font, color, centered }
}

fn rect(x: i32, y: i32, width: u32, height: u32, corner: u32, color: u16, filled: bool) -> DrawOp {
    DrawOp::Rect { x, y, width, height, corner, color, filled }
}

fn step(op: DrawOp, on_failure: &'static str) -> DrawStep {
    DrawStep { op, on_failure }
}

fn clear() -> Vec<DrawStep> {
    vec![step(DrawOp::Clear { color: COLOR_BACKGROUND }, "Failed to clear display")]
}

fn title(title: &str) -> Vec<DrawStep> {
    vec![
        step(rect(0, 0, 160, 20, 0, COLOR_BUTTON, true), "Failed to draw title bar"),
        step(text(title, 80, 13, Font::Font8x13, COLOR_WHITE, true), "Failed to draw title text"),
    ]
}

fn content_box() -> Vec<DrawStep> {
    vec![step(rect(5, 25, 150, 68, 3, COLOR_BORDER, false), "Failed to draw box")]
}

fn small_text(content: &str, x: i32, y: i32) -> Vec<DrawStep> {
    vec![step(text(content, x, y, Font::Font8x13, COLOR_TEXT, false), "Failed to draw text")]
}

fn buttons(labels: [&str; 6], active: usize) -> Vec<DrawStep> {
    let xs = [12, 44, 76, 108, 130, 152];
    let mut steps =
        vec![step(rect(0, 98, 160, 30, 0, COLOR_BUTTON, true), "Failed to draw button area")];
    for i in 0..6 {
        if labels[i].is_empty() {
            continue;
        }
        let color = if i == active { COLOR_WHITE } else { COLOR_TEXT };
        if i == active {
            steps.push(step(
                rect(xs[i] - 8, 106, 24, 14, 0, COLOR_WHITE, false),
                "Failed to draw button indicator",
            ));
        }
        steps.push(step(
            text(labels[i], xs[i], 113, Font::Font6x10, color, false),
            "Failed to draw button label",
        ));
    }
    steps
}

fn startup() -> Vec<DrawStep> {
    let mut steps = clear();
    steps.extend(title("VeraMonitor"));
    steps.push(step(
        text("Welcome", 80, 50, Font::Font8x13, COLOR_TEXT, true),
        "Failed to draw welcome text",
    ));
    steps.push(step(
        text("Initializing...", 80, 70, Font::Font8x13, COLOR_TEXT, true),
        "Failed to draw initializing text",
    ));
    steps.push(step(
        text("v0.1.0", 130, 118, Font::Font6x10, COLOR_TEXT, false),
        "Failed to draw version text",
    ));
    steps.extend(content_box());
    steps
}

fn main_screen(labels: [&str; 6], active: usize) -> Vec<DrawStep> {
    let mut steps = clear();
    steps.extend(title("VeraMonitor"));
    steps.extend(content_box());
    steps.push(step(
        text("Ready", 80, 50, Font::Font8x13, COLOR_TEXT, true),
        "Failed to draw main text",
    ));
    steps.extend(buttons(labels, active));
    steps
}

const MAIN: [&str; 6] = ["Menu", "Trip", "Set", "Mic", "Up", "Down"];
const TRIP: [&str; 6] = ["Back", "New", "View", "Map", "Up", "Down"];
const SETTINGS: [&str; 6] = ["Back", "WiFi", "LED", "User", "Up", "Down"];

/// A task on the main screen with nothing left to replay.
fn on_main() -> (DisplayTask, Display) {
    let mut lcd = Display::new();
    let mut task = DisplayTask::start(&mut lcd);
    task.show_main(&mut lcd);
    lcd.steps.clear();
    (task, lcd)
}

fn pressed(index: usize) -> [ButtonState; 6] {
    let mut states = [ButtonState::Idle; 6];
    states[index] = ButtonState::Pressed;
    states
}

#[test]
fn new_display_is_cleared_first() {
    assert_eq!(Display::new().steps, clear());
}

#[test]
fn display_primitives_record_their_steps() {
    let mut lcd = Display::new();
    lcd.steps.clear();
    lcd.clear();
    lcd.draw_title("Trip Planner");
    lcd.draw_box(5, 25, 150, 68);
    lcd.draw_text("small", 3, 4, COLOR_TEXT, false);
    lcd.draw_text("large", -5, 6, COLOR_WHITE, true);
    let mut expected = clear();
    expected.extend(title("Trip Planner"));
    expected.extend(content_box());
    expected.extend(small_text("small", 3, 4));
    expected.push(step(
        text("large", -5, 6, Font::Font10x20, COLOR_WHITE, false),
        "Failed to draw text",
    ));
    assert_eq!(lcd.steps, expected);
}

#[test]
fn button_row_marks_the_active_label() {
    let mut lcd = Display::new();
    lcd.steps.clear();
    lcd.draw_buttons(&ButtonLayout { labels: MAIN, active_index: 2 });
    assert_eq!(lcd.steps, buttons(MAIN, 2));
    assert_eq!(lcd.steps.len(), 8);
    assert_eq!(
        lcd.steps[3],
        step(rect(68, 106, 24, 14, 0, COLOR_WHITE, false), "Failed to draw button indicator")
    );
    assert_eq!(
        lcd.steps[4],
        step(
            text("Set", 76, 113, Font::Font6x10, COLOR_WHITE, false),
            "Failed to draw button label"
        )
    );
}

#[test]
fn button_row_skips_empty_labels() {
    let labels = ["", "Trip", "", "", "Up", ""];
    let mut lcd = Display::new();
    lcd.steps.clear();
    lcd.draw_buttons(&ButtonLayout { labels, active_index: 0 });
    assert_eq!(lcd.steps, buttons(labels, 0));
    assert_eq!(lcd.steps.len(), 3);

    let mut lcd = Display::new();
    lcd.steps.clear();
    lcd.draw_buttons(&ButtonLayout { labels: TRIP, active_index: 6 });
    assert_eq!(lcd.steps, buttons(TRIP, 6));
    assert_eq!(lcd.steps.len(), 7);
}

#[test]
fn startup_and_main_screens() {
    let mut lcd = Display::new();
    lcd.steps.clear();
    lcd.draw_startup();
    assert_eq!(lcd.steps, startup());

    let mut lcd = Display::new();
    lcd.steps.clear();
    lcd.draw_main_screen(&ButtonLayout { labels: MAIN, active_index: 5 });
    assert_eq!(lcd.steps, main_screen(MAIN, 5));
}

#[test]
fn button_label_sets() {
    assert_eq!(main_buttons(), MAIN);
    assert_eq!(trip_buttons(), TRIP);
    assert_eq!(settings_buttons(), SETTINGS);
    assert_eq!(STARTUP_HOLD_MS, 2000);
    assert_eq!(DISPLAY_TICK_MS, 50);
}

#[test]
fn task_begins_with_startup_then_main() {
    let mut lcd = Display::new();
    let mut task = DisplayTask::start(&mut lcd);
    assert_eq!(task.current_screen, MenuScreen::Startup);
    let mut expected = clear();
    expected.extend(startup());
    assert_eq!(lcd.steps, expected);

    task.show_main(&mut lcd);
    assert_eq!(task.current_screen, MenuScreen::Main);
    assert_eq!(task.layout, ButtonLayout { labels: MAIN, active_index: 0 });
    expected.extend(main_screen(MAIN, 0));
    assert_eq!(lcd.steps, expected);
}

#[test]
fn quiet_tick_draws_nothing() {
    let (mut task, mut lcd) = on_main();
    display_task(&mut task, &mut lcd, 0, &[ButtonState::Idle; 6]);
    assert_eq!(lcd.steps, vec![]);
    assert_eq!(task.current_screen, MenuScreen::Main);
    assert_eq!(task.layout, ButtonLayout { labels: MAIN, active_index: 0 });
}

#[test]
fn new_selection_redraws_the_current_screen() {
    let (mut task, mut lcd) = on_main();
    display_task(&mut task, &mut lcd, 3, &[ButtonState::Idle; 6]);
    assert_eq!(lcd.steps, main_screen(MAIN, 3));
    assert_eq!(task.layout.active_index, 3);

    lcd.steps.clear();
    display_task(&mut task, &mut lcd, 3, &[ButtonState::Idle; 6]);
    assert_eq!(lcd.steps, vec![]);
}

#[test]
fn trip_button_leads_from_main_to_trips_with_back_marked() {
    let (mut task, mut lcd) = on_main();
    display_task(&mut task, &mut lcd, 0, &pressed(1));
    assert_eq!(task.current_screen, MenuScreen::Trip);
    assert_eq!(task.layout, ButtonLayout { labels: TRIP, active_index: 0 });
    let mut expected = clear();
    expected.extend(title("Trip Planner"));
    expected.extend(content_box());
    expected.extend(small_text("No trips scheduled", 20, 50));
    expected.extend(buttons(TRIP, 0));
    assert_eq!(lcd.steps, expected);
    // The label marked is the first one, "Back".
    let marked = step(
        text("Back", 12, 113, Font::Font6x10, COLOR_WHITE, false),
        "Failed to draw button label",
    );
    assert!(lcd.steps.contains(&marked));
}

#[test]
fn settings_button_leads_from_main_to_settings() {
    let (mut task, mut lcd) = on_main();
    display_task(&mut task, &mut lcd, 0, &pressed(2));
    assert_eq!(task.current_screen, MenuScreen::Settings);
    assert_eq!(task.layout, ButtonLayout { labels: SETTINGS, active_index: 0 });
    let mut expected = clear();
    expected.extend(title("Settings"));
    expected.extend(content_box());
    expected.extend(small_text("WiFi: Not Connected", 10, 40));
    expected.extend(small_text("LED: Medium", 10, 55));
    expected.extend(small_text("User: Guest", 10, 70));
    expected.extend(buttons(SETTINGS, 0));
    assert_eq!(lcd.steps, expected);
}

#[test]
fn back_leads_to_main_from_trips_and_settings() {
    for forward in [1, 2] {
        let (mut task, mut lcd) = on_main();
        display_task(&mut task, &mut lcd, 0, &pressed(forward));
        lcd.steps.clear();
        display_task(&mut task, &mut lcd, 0, &pressed(0));
        assert_eq!(task.current_screen, MenuScreen::Main);
        assert_eq!(task.layout, ButtonLayout { labels: MAIN, active_index: 0 });
        assert_eq!(lcd.steps, main_screen(MAIN, 0));
    }
}

#[test]
fn buttons_that_lead_nowhere_are_ignored() {
    for index in [0, 3, 4, 5] {
        let (mut task, mut lcd) = on_main();
        display_task(&mut task, &mut lcd, 0, &pressed(index));
        assert_eq!(task.current_screen, MenuScreen::Main);
        assert_eq!(lcd.steps, vec![]);
    }
    for index in 1..6 {
        let (mut task, mut lcd) = on_main();
        display_task(&mut task, &mut lcd, 0, &pressed(1));
        lcd.steps.clear();
        display_task(&mut task, &mut lcd, 0, &pressed(index));
        assert_eq!(task.current_screen, MenuScreen::Trip);
        assert_eq!(lcd.steps, vec![]);
    }
}

#[test]
fn only_the_first_pressed_button_counts() {
    // Buttons 0 and 1 are both down on the main screen: button 0 leads
    // nowhere from there, and button 1 is not looked at.
    let (mut task, mut lcd) = on_main();
    let mut states = pressed(0);
    states[1] = ButtonState::Pressed;
    display_task(&mut task, &mut lcd, 0, &states);
    assert_eq!(task.current_screen, MenuScreen::Main);
    assert_eq!(lcd.steps, vec![]);

    let mut states = pressed(2);
    states[5] = ButtonState::Pressed;
    states[0] = ButtonState::Released;
    display_task(&mut task, &mut lcd, 0, &states);
    assert_eq!(task.current_screen, MenuScreen::Settings);
}

#[test]
fn selection_is_followed_before_the_press() {
    let (mut task, mut lcd) = on_main();
    display_task(&mut task, &mut lcd, 1, &pressed(1));
    assert_eq!(task.current_screen, MenuScreen::Trip);
    assert_eq!(task.layout, ButtonLayout { labels: TRIP, active_index: 0 });
    let mut expected = main_screen(MAIN, 1);
    expected.extend(clear());
    expected.extend(title("Trip Planner"));
    expected.extend(content_box());
    expected.extend(small_text("No trips scheduled", 20, 50));
    expected.extend(buttons(TRIP, 0));
    assert_eq!(lcd.steps, expected);

    // The selection is still button 1, so the next tick marks "New".
    lcd.steps.clear();
    display_task(&mut task, &mut lcd, 1, &[ButtonState::Idle; 6]);
    let mut expected = title("Trip Planner");
    expected.extend(buttons(TRIP, 1));
    assert_eq!(lcd.steps, expected);
}

#[test]
fn selection_on_the_startup_screen_redraws_it() {
    let mut lcd = Display::new();
    let mut task = DisplayTask::start(&mut lcd);
    lcd.steps.clear();
    display_task(&mut task, &mut lcd, 2, &pressed(1));
    assert_eq!(task.current_screen, MenuScreen::Startup);
    assert_eq!(task.layout, ButtonLayout { labels: MAIN, active_index: 2 });
    assert_eq!(lcd.steps, startup());
}
