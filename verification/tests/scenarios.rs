use izzymonitor::animation::led_task;
use izzymonitor::buttons::{Button, ButtonAction};
use izzymonitor::debounce::{watch_button, PinSample, WatchPhase, WatchWait, Watcher};
use izzymonitor::key_watcher::key_watcher;
use izzymonitor::display::{
    get_default_zones, DrawOp, COLOR_BACKGROUND, COLOR_BUTTON_ACTIVE,
};
use izzymonitor::pulse::{PulsePair, PulseTiming};
use izzymonitor::render::{update_display, RenderTracker};
use izzymonitor::ui_state::{apply_key_event, get_ui_state, init_ui_state, Menu, UIState};

/// Texts of the operations of a screen, in order.
fn texts(ops: &[DrawOp]) -> Vec<String> {
    ops.iter()
        .filter_map(|op| match op {
            DrawOp::Text { text, .. } => Some(text.clone()),
            _ => None,
        })
        .collect()
}

/// Positions of the highlight fills of a screen.
fn highlights(ops: &[DrawOp]) -> Vec<(i32, i32)> {
    ops.iter()
        .filter_map(|op| match op {
            DrawOp::Rect { x, y, color, filled: true, .. } if *color == COLOR_BUTTON_ACTIVE => {
                Some((*x, *y))
            }
            _ => None,
        })
        .collect()
}

#[test]
fn pressing_the_second_button_opens_the_trip_screen() {
    let mut slot: Option<UIState> = None;
    let mut tracker = RenderTracker::new();

    // The device comes up on the main menu with the first control selected.
    {
        let ui = get_ui_state(&mut slot);
        assert_eq!((ui.current_menu, ui.active_button), (Menu::Main, 0));
        let job = update_display(&tracker, ui).unwrap();
        tracker.finish(&job, true);
        assert_eq!(update_display(&tracker, ui), None);
    }

    // Button 1 goes down and stays down over the debounce interval.
    let mut button = Button::new(1, "key 2");
    let mut watcher = Watcher::new();
    let edge =
        watch_button(&mut button, &mut watcher, PinSample { is_low: true, now_ms: 500 }, 2000);
    assert_eq!(edge.action, ButtonAction::NoAction);
    assert_eq!(get_ui_state(&mut slot).active_button, 0);
    let confirmed =
        watch_button(&mut button, &mut watcher, PinSample { is_low: true, now_ms: 550 }, 2000);
    assert_eq!(confirmed.action, ButtonAction::Press);
    get_ui_state(&mut slot).key_pressed(button.id);

    let ui = get_ui_state(&mut slot);
    assert_eq!(ui.active_button, 1);
    assert_eq!(ui.current_menu, Menu::Trip);

    // The next display tick draws the trip screen, and that one alone.
    let job = update_display(&tracker, ui).expect("the change is drawn");
    assert_eq!(job.menu, Menu::Trip);
    assert_eq!(job.active_button, 1);
    assert_eq!(job.canvas.ops[0], DrawOp::Clear { color: COLOR_BACKGROUND });
    assert_eq!(
        texts(&job.canvas.ops),
        vec!["Trip Planner", "No trips yet", "Back", "New", "View"]
    );
    // The highlighted zone is the one whose index is the selected
    // control: the middle one of the bottom row.
    let zones = get_default_zones();
    assert_eq!(highlights(&job.canvas.ops), vec![(zones[3].x + 1, zones[3].y + 1)]);

    tracker.finish(&job, true);
    assert_eq!(update_display(&tracker, ui), None);

    // The LEDs follow at their own tick: the second one is white.
    let pulses = led_task(ui, &PulseTiming::nominal());
    let one = PulsePair { high_ns: 900, low_ns: 350 };
    assert_eq!(&pulses[24..48], vec![one; 24].as_slice());
    assert_ne!(&pulses[0..24], vec![one; 24].as_slice());
}

#[test]
fn a_bounce_on_the_second_button_changes_nothing() {
    let mut slot: Option<UIState> = None;
    let mut tracker = RenderTracker::new();
    let job = update_display(&tracker, get_ui_state(&mut slot)).unwrap();
    tracker.finish(&job, true);

    let mut button = Button::new(1, "key 2");
    let mut watcher = Watcher::new();
    watch_button(&mut button, &mut watcher, PinSample { is_low: true, now_ms: 500 }, 2000);
    let check =
        watch_button(&mut button, &mut watcher, PinSample { is_low: false, now_ms: 550 }, 2000);
    assert_eq!(check.action, ButtonAction::NoAction);

    let ui = get_ui_state(&mut slot);
    assert_eq!((ui.current_menu, ui.active_button), (Menu::Main, 0));
    assert_eq!(update_display(&tracker, ui), None);
}

#[test]
fn only_a_press_reaches_the_ui_state() {
    let mut ui = init_ui_state();
    ui.key_pressed(2);
    ui.user_name = "Izzy".to_string();
    ui.wifi_connected = true;
    let before = ui.clone();
    for action in [ButtonAction::NoAction, ButtonAction::Release, ButtonAction::LongPress] {
        apply_key_event(&mut ui, 1, action);
        assert_eq!(ui, before);
    }
    apply_key_event(&mut ui, 1, ButtonAction::Press);
    assert_eq!((ui.current_menu, ui.active_button), (Menu::Trip, 1));
    assert_eq!(ui.user_name, "Izzy");
    assert!(ui.wifi_connected);
    apply_key_event(&mut ui, 4, ButtonAction::Press);
    assert_eq!((ui.current_menu, ui.active_button), (Menu::Trip, 4));
}

#[test]
fn key_watcher_carries_a_confirmed_press_into_the_ui_state() {
    let mut ui = init_ui_state();
    let mut button = Button::new(2, "key 3");
    let mut watcher = Watcher::new();
    let sample = |is_low, now_ms| PinSample { is_low, now_ms };

    let edge = key_watcher(&mut ui, &mut button, &mut watcher, sample(true, 0), 2000);
    assert_eq!(edge.action, ButtonAction::NoAction);
    assert_eq!(edge.wait, WatchWait::Delay(50));
    assert_eq!(ui, init_ui_state());

    let press = key_watcher(&mut ui, &mut button, &mut watcher, sample(true, 50), 2000);
    assert_eq!(press.action, ButtonAction::Press);
    assert_eq!((ui.current_menu, ui.active_button), (Menu::Settings, 2));

    // Holding, the long press and the release leave the state alone.
    let after_press = ui.clone();
    let mut seen = Vec::new();
    for s in [sample(true, 60), sample(true, 2050), sample(false, 2060), sample(false, 2110)] {
        let step = key_watcher(&mut ui, &mut button, &mut watcher, s, 2000);
        seen.push(step.action);
        assert_eq!(ui, after_press);
    }
    assert_eq!(
        seen,
        vec![
            ButtonAction::NoAction,
            ButtonAction::LongPress,
            ButtonAction::NoAction,
            ButtonAction::Release
        ]
    );
    assert_eq!(watcher.phase, WatchPhase::AwaitEdge);
}

#[test]
fn key_watcher_keeps_a_bounce_from_the_ui_state() {
    let mut ui = init_ui_state();
    let mut button = Button::new(1, "key 2");
    let mut watcher = Watcher::new();
    for round in 0..10u64 {
        let at = round * 100;
        key_watcher(&mut ui, &mut button, &mut watcher, PinSample { is_low: true, now_ms: at }, 2000);
        let check = key_watcher(
            &mut ui,
            &mut button,
            &mut watcher,
            PinSample { is_low: false, now_ms: at + 50 },
            2000,
        );
        assert_eq!(check.action, ButtonAction::NoAction);
        assert_eq!(ui, init_ui_state());
    }
}
