//! The LED animation loop, one tick at a time.
//!
//! Two policies are kept apart. `led_task` lights the control that the
//! user-interface state names as selected. `led_animation_task` lights
//! every button that is down right now. Either way one tick builds one
//! frame and has it encoded; sending it and waiting for the next tick is
//! the caller's part.

use vstd::prelude::*;
use crate::color::RgbColor;
use crate::color_vec::ColorBuffer;
use crate::colors::{dim_blue, dim_cyan, dim_green, dim_magenta, dim_red, dim_yellow, white};
use crate::correction::corrected_frame;
use crate::encoder::{encode, encoded};
use crate::led_controller::{shown_count, slots_for, LedController};
use crate::polled_buttons::ButtonState;
use crate::pulse::{frame_pulses, PulsePair, PulseTiming};
use crate::ui_state::UIState;

verus! {

/// Number of LEDs that the animations drive.
pub const LED_COUNT: usize = 6;

/// Milliseconds between two ticks of `led_task`.
pub const LED_TASK_INTERVAL_MS: u64 = 50;

/// Milliseconds between two ticks of `led_animation_task`.
pub const ANIMATION_INTERVAL_MS: u64 = 20;

/// Brightness at which the scaling leaves every channel as it is.
pub const FULL_BRIGHTNESS: u8 = 255;

/// Bright white, the colour of the selected control.
pub open spec fn active_color() -> RgbColor {
    RgbColor { r: 255, g: 255, b: 255 }
}

/// Dim blue, the colour of every other control.
pub open spec fn idle_color() -> RgbColor {
    RgbColor { r: 0, g: 0, b: 32 }
}

/// The frame that marks control `active_button`.
pub open spec fn selection_frame(active_button: nat) -> Seq<RgbColor> {
    Seq::new(
        LED_COUNT as nat,
        |i: int|
            if i == active_button {
                active_color()
            } else {
                idle_color()
            },
    )
}

/// Builds the frame in which the control of index `active_button` is
/// bright white and all others are dim blue.
pub fn selection_colors(active_button: usize) -> (frame: [RgbColor; 6])
    ensures
        frame@ == selection_frame(active_button as nat),
{
    let mut frame = [RgbColor { r: 0, g: 0, b: 32 }; 6];
    let mut i: usize = 0;
    while i < LED_COUNT
        invariant
            i <= LED_COUNT,
            forall|j: int| 0 <= j < i ==> frame@[j] == selection_frame(active_button as nat)[j],
        decreases LED_COUNT - i,
    {
        frame[i] = if i == active_button {
            RgbColor { r: 255, g: 255, b: 255 }
        } else {
            RgbColor { r: 0, g: 0, b: 32 }
        };
        i = i + 1;
    }
    assert(frame@ =~= selection_frame(active_button as nat));
    frame
}

/// One tick of the selection animation: the pulse train of the frame
/// that marks the selected control, gamma-corrected, at full brightness.
pub fn led_task(ui_state: &UIState, timing: &PulseTiming) -> (pulses: Vec<PulsePair>)
    ensures
        pulses@ == encoded(selection_frame(ui_state@.active_button), FULL_BRIGHTNESS, timing@),
        pulses@.len() == 24 * LED_COUNT + 1,
{
    let frame = selection_colors(ui_state.active_button);
    encode(frame.as_slice(), FULL_BRIGHTNESS, timing)
}

/// Colour of button `i` while nothing is pressed.
pub open spec fn base_color(i: int) -> RgbColor {
    if i == 0 {
        RgbColor { r: 32, g: 0, b: 0 }
    } else if i == 1 {
        RgbColor { r: 0, g: 32, b: 0 }
    } else if i == 2 {
        RgbColor { r: 0, g: 0, b: 32 }
    } else if i == 3 {
        RgbColor { r: 32, g: 32, b: 0 }
    } else if i == 4 {
        RgbColor { r: 0, g: 32, b: 32 }
    } else {
        RgbColor { r: 32, g: 0, b: 32 }
    }
}

/// Colour of button `i` in a state: white while pressed, its own dim
/// colour while idle or just released.
pub open spec fn state_color(state: ButtonState, i: int) -> RgbColor {
    match state {
        ButtonState::Pressed => RgbColor { r: 255, g: 255, b: 255 },
        ButtonState::Idle => base_color(i),
        ButtonState::Released => base_color(i),
    }
}

/// The colours after a tick: those of the buttons follow their states,
/// any behind them stay.
pub open spec fn animated(colors: Seq<RgbColor>, states: Seq<ButtonState>) -> Seq<RgbColor> {
    Seq::new(
        colors.len(),
        |i: int|
            if i < states.len() {
                state_color(states[i], i)
            } else {
                colors[i]
            },
    )
}

/// Default colours for buttons: dim red, green, blue, yellow, cyan and
/// magenta.
pub fn base_colors() -> (colors: [RgbColor; 6])
    ensures
        colors@ == Seq::new(6, |i: int| base_color(i)),
{
    let colors = [dim_red(), dim_green(), dim_blue(), dim_yellow(), dim_cyan(), dim_magenta()];
    assert(colors@ =~= Seq::new(6, |i: int| base_color(i)));
    colors
}

/// The colour buffer that the animation starts with: the six base
/// colours.
pub fn initial_colors() -> (buffer: ColorBuffer)
    ensures
        buffer@ == Seq::new(6, |i: int| base_color(i)),
{
    let base = base_colors();
    let mut buffer = ColorBuffer::new();
    let mut i: usize = 0;
    while i < 6
        invariant
            i <= 6,
            base@ == Seq::new(6, |k: int| base_color(k)),
            buffer@.len() == i,
            forall|j: int| 0 <= j < i ==> buffer@[j] == base_color(j),
        decreases 6 - i,
    {
        let pushed = buffer.push(base[i]);
        assert(pushed is Ok);
        i = i + 1;
    }
    assert(buffer@ =~= Seq::new(6, |k: int| base_color(k)));
    buffer
}

/// One tick of the state-driven animation. Brings the colours in
/// `current_colors` up to date with the button states and has the
/// controller show them: corrected for gamma and for the controller's
/// brightness, then split into pulses in its buffer. Returns the number
/// of slots of that buffer that now hold the frame.
pub fn led_animation_task(
    controller: &mut LedController,
    button_states: &[ButtonState; 6],
    current_colors: &mut ColorBuffer,
) -> (filled: usize)
    requires
        old(controller).wf(),
    ensures
        final(controller).wf(),
        final(current_colors)@ == animated(old(current_colors)@, button_states@),
        filled == slots_for(
            shown_count(final(current_colors)@.len(), old(controller)@.led_count),
        ),
        final(controller)@.buffer.subrange(0, filled as int) == frame_pulses(
            corrected_frame(
                final(current_colors)@.take(
                    shown_count(final(current_colors)@.len(), old(controller)@.led_count) as int,
                ),
                old(controller)@.brightness,
            ),
            old(controller)@.table,
        ),
        final(controller)@.buffer.len() == old(controller)@.buffer.len(),
        forall|j: int|
            filled <= j < old(controller)@.buffer.len() ==> final(controller)@.buffer[j] == old(
                controller,
            )@.buffer[j],
        final(controller)@.led_count == old(controller)@.led_count,
        final(controller)@.table == old(controller)@.table,
        final(controller)@.brightness == old(controller)@.brightness,
{
    let base = base_colors();
    let len: usize = current_colors.len();
    let mut i: usize = 0;
    while i < 6 && i < len
        invariant
            i <= 6,
            i <= len,
            len == old(current_colors)@.len(),
            current_colors@.len() == len,
            base@ == Seq::new(6, |k: int| base_color(k)),
            forall|j: int| 0 <= j < i ==> current_colors@[j] == state_color(button_states@[j], j),
            forall|j: int| i <= j < len ==> current_colors@[j] == old(current_colors)@[j],
        decreases 6 - i,
    {
        let color = match button_states[i] {
            ButtonState::Idle => base[i],
            ButtonState::Pressed => white(),
            ButtonState::Released => base[i],
        };
        current_colors.set(i, color);
        i = i + 1;
    }
    assert(current_colors@ =~= animated(old(current_colors)@, button_states@));
    controller.show(current_colors.as_slice())
}

} // verus!
