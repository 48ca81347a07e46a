use izzymonitor::polled_buttons::{
    button_task, get_active_button, wait_for_button_press, Button, ButtonState, PollEvent,
    PollStep, PressWait,
};

#[test]
fn polled_button_starts_idle() {
    let button = Button::new("Button 1", 0);
    assert_eq!(button.name(), "Button 1");
    assert_eq!(button.id(), 0);
    assert_eq!(button.get_state(), ButtonState::Idle);
}

#[test]
fn is_pressed_takes_low_as_pressed() {
    let button = Button::new("Button 1", 0);
    assert!(button.is_pressed(Some(true)));
    assert!(!button.is_pressed(Some(false)));
    assert!(!button.is_pressed(None));
}

#[test]
fn set_state_is_read_back() {
    let mut button = Button::new("Button 2", 1);
    button.set_state(ButtonState::Released);
    assert_eq!(button.get_state(), ButtonState::Released);
    assert_eq!(button.id(), 1);
    assert_eq!(button.name(), "Button 2");
}

#[test]
fn task_marks_press_then_release_then_idle() {
    let mut button = Button::new("Button 3", 2);

    let step = button_task(&mut button, false);
    assert_eq!(step, PollStep { event: PollEvent::Quiet, delay_ms: 20 });
    assert_eq!(button.get_state(), ButtonState::Idle);

    let step = button_task(&mut button, true);
    assert_eq!(step, PollStep { event: PollEvent::Pressed, delay_ms: 20 });
    assert_eq!(button.get_state(), ButtonState::Pressed);

    let step = button_task(&mut button, true);
    assert_eq!(step, PollStep { event: PollEvent::Quiet, delay_ms: 20 });
    assert_eq!(button.get_state(), ButtonState::Pressed);

    let step = button_task(&mut button, false);
    assert_eq!(step, PollStep { event: PollEvent::Released, delay_ms: 50 });
    assert_eq!(button.get_state(), ButtonState::Released);

    // After the hold the button is idle, whatever the pin says.
    let step = button_task(&mut button, true);
    assert_eq!(step, PollStep { event: PollEvent::Quiet, delay_ms: 20 });
    assert_eq!(button.get_state(), ButtonState::Idle);
}

#[test]
fn active_button_is_the_first_pressed() {
    let mut states = [ButtonState::Idle; 6];
    assert_eq!(get_active_button(&states), None);
    states[4] = ButtonState::Pressed;
    assert_eq!(get_active_button(&states), Some(4));
    states[2] = ButtonState::Pressed;
    assert_eq!(get_active_button(&states), Some(2));
    states[0] = ButtonState::Released;
    assert_eq!(get_active_button(&states), Some(2));
    states[5] = ButtonState::Pressed;
    states[2] = ButtonState::Idle;
    states[4] = ButtonState::Idle;
    assert_eq!(get_active_button(&states), Some(5));
}

#[test]
fn waiting_for_a_press_sleeps_until_one_is_down() {
    let mut states = [ButtonState::Idle; 6];
    assert_eq!(wait_for_button_press(&states), PressWait::Sleep(20));
    states[1] = ButtonState::Released;
    assert_eq!(wait_for_button_press(&states), PressWait::Sleep(20));
    states[3] = ButtonState::Pressed;
    assert_eq!(wait_for_button_press(&states), PressWait::Ready(3));
}
