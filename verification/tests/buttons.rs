use izzymonitor::buttons::{Button, ButtonAction, ButtonState, DEBOUNCE_MS, POLL_MS};
use izzymonitor::debounce::{watch_button, PinSample, WatchPhase, WatchStep, WatchWait, Watcher};

fn low(now_ms: u64) -> PinSample {
    PinSample { is_low: true, now_ms }
}

fn high(now_ms: u64) -> PinSample {
    PinSample { is_low: false, now_ms }
}

/// Runs the falling edge at `edge_ms` and the confirming low sample one
/// debounce interval later.
fn pressed_button(edge_ms: u64, long_press_ms: u64) -> (Button, Watcher) {
    let mut button = Button::new(3, "key 4");
    let mut watcher = Watcher::new();
    watch_button(&mut button, &mut watcher, low(edge_ms), long_press_ms);
    let step = watch_button(&mut button, &mut watcher, low(edge_ms + DEBOUNCE_MS), long_press_ms);
    assert_eq!(step.action, ButtonAction::Press);
    (button, watcher)
}

#[test]
fn new_button_is_idle() {
    let button = Button::new(2, "key 3");
    assert_eq!(button.state, ButtonState::Idle);
    assert_eq!(button.last_action, ButtonAction::NoAction);
    assert_eq!(button.id, 2);
    assert_eq!(button.name, "key 3");
}

#[test]
fn update_state_presses_an_idle_button() {
    let mut button = Button::new(0, "key 1");
    assert_eq!(button.update_state(true), ButtonAction::Press);
    assert_eq!(button.state, ButtonState::Pressed);
    assert_eq!(button.last_action, ButtonAction::Press);
}

#[test]
fn update_state_releases_a_pressed_button() {
    let mut button = Button::new(0, "key 1");
    button.update_state(true);
    assert_eq!(button.update_state(false), ButtonAction::Release);
    assert_eq!(button.state, ButtonState::Idle);
    assert_eq!(button.last_action, ButtonAction::Release);
}

#[test]
fn update_state_releases_a_long_pressed_button() {
    let mut button = Button::new(0, "key 1");
    button.update_state(true);
    button.process_long_press(2000);
    assert_eq!(button.state, ButtonState::LongPressed);
    assert_eq!(button.update_state(false), ButtonAction::Release);
    assert_eq!(button.state, ButtonState::Idle);
}

#[test]
fn update_state_without_change_reports_nothing() {
    let mut button = Button::new(0, "key 1");
    assert_eq!(button.update_state(false), ButtonAction::NoAction);
    assert_eq!(button.state, ButtonState::Idle);
    assert_eq!(button.last_action, ButtonAction::NoAction);
    button.update_state(true);
    assert_eq!(button.update_state(true), ButtonAction::NoAction);
    assert_eq!(button.state, ButtonState::Pressed);
    assert_eq!(button.last_action, ButtonAction::NoAction);
}

#[test]
fn long_press_needs_a_pressed_button() {
    let mut idle = Button::new(1, "key 2");
    assert_eq!(idle.process_long_press(2000), ButtonAction::NoAction);
    assert_eq!(idle.state, ButtonState::Idle);
    assert_eq!(idle.last_action, ButtonAction::NoAction);

    let mut pressed = Button::new(1, "key 2");
    pressed.update_state(true);
    assert_eq!(pressed.process_long_press(2000), ButtonAction::LongPress);
    assert_eq!(pressed.state, ButtonState::LongPressed);
    assert_eq!(pressed.last_action, ButtonAction::LongPress);

    assert_eq!(pressed.process_long_press(2000), ButtonAction::NoAction);
    assert_eq!(pressed.state, ButtonState::LongPressed);
    assert_eq!(pressed.last_action, ButtonAction::LongPress);
}

#[test]
fn watcher_starts_by_waiting_for_an_edge() {
    let watcher = Watcher::new();
    assert_eq!(watcher.phase, WatchPhase::AwaitEdge);
    assert_eq!(watcher.pending_wait(), WatchWait::FallingEdge);
}

#[test]
fn falling_edge_starts_the_debounce_interval() {
    let mut button = Button::new(0, "key 1");
    let mut watcher = Watcher::new();
    let step = watch_button(&mut button, &mut watcher, low(1000), 2000);
    assert_eq!(step, WatchStep { action: ButtonAction::NoAction, wait: WatchWait::Delay(50) });
    assert_eq!(DEBOUNCE_MS, 50);
    assert_eq!(watcher.phase, WatchPhase::ConfirmPress);
    assert_eq!(button.state, ButtonState::Idle);
}

#[test]
fn press_bounce_is_swallowed() {
    let mut button = Button::new(0, "key 1");
    let mut watcher = Watcher::new();
    watch_button(&mut button, &mut watcher, low(1000), 2000);
    let step = watch_button(&mut button, &mut watcher, high(1050), 2000);
    assert_eq!(step, WatchStep { action: ButtonAction::NoAction, wait: WatchWait::FallingEdge });
    assert_eq!(watcher.phase, WatchPhase::AwaitEdge);
    assert_eq!(button.state, ButtonState::Idle);
    assert_eq!(button.last_action, ButtonAction::NoAction);
}

#[test]
fn many_bounces_in_a_row_make_no_event() {
    let mut button = Button::new(0, "key 1");
    let mut watcher = Watcher::new();
    let mut now: u64 = 0;
    for _ in 0..20 {
        let edge = watch_button(&mut button, &mut watcher, low(now), 2000);
        assert_eq!(edge.action, ButtonAction::NoAction);
        now += 50;
        let check = watch_button(&mut button, &mut watcher, high(now), 2000);
        assert_eq!(check.action, ButtonAction::NoAction);
        assert_eq!(button.state, ButtonState::Idle);
        now += 3;
    }
}

#[test]
fn confirmed_press_is_reported() {
    let mut button = Button::new(0, "key 1");
    let mut watcher = Watcher::new();
    watch_button(&mut button, &mut watcher, low(1000), 2000);
    let step = watch_button(&mut button, &mut watcher, low(1050), 2000);
    assert_eq!(step, WatchStep { action: ButtonAction::Press, wait: WatchWait::Delay(10) });
    assert_eq!(POLL_MS, 10);
    assert_eq!(watcher.phase, WatchPhase::Holding);
    assert_eq!(watcher.pressed_at_ms, 1050);
    assert_eq!(button.state, ButtonState::Pressed);
    assert_eq!(button.last_action, ButtonAction::Press);
}

#[test]
fn release_bounce_is_swallowed() {
    let (mut button, mut watcher) = pressed_button(1000, 2000);
    let seen_high = watch_button(&mut button, &mut watcher, high(1100), 2000);
    assert_eq!(
        seen_high,
        WatchStep { action: ButtonAction::NoAction, wait: WatchWait::Delay(50) }
    );
    assert_eq!(watcher.phase, WatchPhase::ConfirmRelease);
    let low_again = watch_button(&mut button, &mut watcher, low(1150), 2000);
    assert_eq!(
        low_again,
        WatchStep { action: ButtonAction::NoAction, wait: WatchWait::Delay(10) }
    );
    assert_eq!(watcher.phase, WatchPhase::Holding);
    assert_eq!(button.state, ButtonState::Pressed);
    assert_eq!(button.last_action, ButtonAction::Press);
}

#[test]
fn confirmed_release_is_reported() {
    let (mut button, mut watcher) = pressed_button(1000, 2000);
    watch_button(&mut button, &mut watcher, high(1100), 2000);
    let step = watch_button(&mut button, &mut watcher, high(1150), 2000);
    assert_eq!(step, WatchStep { action: ButtonAction::Release, wait: WatchWait::FallingEdge });
    assert_eq!(watcher.phase, WatchPhase::AwaitEdge);
    assert_eq!(button.state, ButtonState::Idle);
    assert_eq!(button.last_action, ButtonAction::Release);
}

#[test]
fn holding_past_the_threshold_gives_one_long_press() {
    // Press confirmed at 1050; the timer of 2000 ms runs out at 3050.
    let (mut button, mut watcher) = pressed_button(1000, 2000);
    let mut long_presses = 0;
    let mut first_at = 0;
    let mut now: u64 = 1050;
    for _ in 0..400 {
        now += 10;
        let step = watch_button(&mut button, &mut watcher, low(now), 2000);
        assert_eq!(step.wait, WatchWait::Delay(10));
        match step.action {
            ButtonAction::LongPress => {
                long_presses += 1;
                if first_at == 0 {
                    first_at = now;
                }
            }
            ButtonAction::NoAction => {}
            other => panic!("unexpected {:?}", other),
        }
    }
    assert_eq!(long_presses, 1);
    assert_eq!(first_at, 3050);
    assert_eq!(button.state, ButtonState::LongPressed);
    assert_eq!(button.last_action, ButtonAction::LongPress);

    // Only the confirmed release leads back to idle.
    watch_button(&mut button, &mut watcher, high(now + 10), 2000);
    let step = watch_button(&mut button, &mut watcher, high(now + 60), 2000);
    assert_eq!(step.action, ButtonAction::Release);
    assert_eq!(button.state, ButtonState::Idle);
}

#[test]
fn no_long_press_just_before_the_threshold() {
    let (mut button, mut watcher) = pressed_button(1000, 2000);
    let step = watch_button(&mut button, &mut watcher, low(3049), 2000);
    assert_eq!(step.action, ButtonAction::NoAction);
    assert_eq!(button.state, ButtonState::Pressed);
    let step = watch_button(&mut button, &mut watcher, low(3050), 2000);
    assert_eq!(step.action, ButtonAction::LongPress);
}

#[test]
fn release_at_the_threshold_is_a_release() {
    // Press confirmed at 1050, timer of 100 ms: it runs out at 1150, the
    // very moment at which the pin is seen high.
    let (mut button, mut watcher) = pressed_button(1000, 100);
    let seen_high = watch_button(&mut button, &mut watcher, high(1150), 100);
    assert_eq!(seen_high.action, ButtonAction::NoAction);
    let confirmed = watch_button(&mut button, &mut watcher, high(1200), 100);
    assert_eq!(confirmed.action, ButtonAction::Release);
    assert_eq!(button.state, ButtonState::Idle);
}

#[test]
fn timer_is_looked_at_after_a_release_that_bounced() {
    let (mut button, mut watcher) = pressed_button(1000, 100);
    watch_button(&mut button, &mut watcher, high(1140), 100);
    let step = watch_button(&mut button, &mut watcher, low(1190), 100);
    assert_eq!(step, WatchStep { action: ButtonAction::LongPress, wait: WatchWait::Delay(10) });
    assert_eq!(watcher.phase, WatchPhase::Holding);
    assert_eq!(button.state, ButtonState::LongPressed);
}

#[test]
fn zero_threshold_fires_at_the_first_poll() {
    let (mut button, mut watcher) = pressed_button(1000, 0);
    let step = watch_button(&mut button, &mut watcher, low(1050), 0);
    assert_eq!(step.action, ButtonAction::LongPress);
}

#[test]
fn clock_that_steps_back_counts_as_no_time() {
    let (mut button, mut watcher) = pressed_button(1000, 5);
    let step = watch_button(&mut button, &mut watcher, low(900), 5);
    assert_eq!(step.action, ButtonAction::NoAction);
    assert_eq!(button.state, ButtonState::Pressed);
}

#[test]
fn press_and_release_can_repeat() {
    let mut button = Button::new(5, "key 6");
    let mut watcher = Watcher::new();
    let mut now: u64 = 0;
    let mut events = Vec::new();
    for _ in 0..3 {
        for sample in [low(now), low(now + 50), low(now + 60), high(now + 70), high(now + 120)] {
            let step = watch_button(&mut button, &mut watcher, sample, 2000);
            if step.action != ButtonAction::NoAction {
                events.push(step.action);
            }
        }
        now += 500;
    }
    assert_eq!(
        events,
        vec![
            ButtonAction::Press,
            ButtonAction::Release,
            ButtonAction::Press,
            ButtonAction::Release,
            ButtonAction::Press,
            ButtonAction::Release,
        ]
    );
    assert_eq!(button.id, 5);
    assert_eq!(button.name, "key 6");
}
