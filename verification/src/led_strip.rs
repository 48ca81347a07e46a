//! The LED strip: one colour per button, and an overall brightness.
//!
//! The strip keeps the colours as they were asked for. What goes to the
//! driver is the corrected frame: gamma first, brightness second. Every
//! method that changes the colours hands back the frame to write.

use vstd::prelude::*;
use crate::color::RgbColor;
use crate::correction::{correct, corrected_frame, hsv_to_rgb, hsv_value};

verus! {

/// Number of LEDs in the chain, one per button.
pub const NUM_LEDS: usize = 6;

/// Brightness of a strip that was not told otherwise.
pub const DEFAULT_BRIGHTNESS: u8 = 50;

/// Distance in hue between neighbouring LEDs of the rainbow.
pub const HUE_STEP: u8 = 43;

#[derive(Debug)]
pub struct LedStrip {
    data: [RgbColor; NUM_LEDS],
    brightness: u8,
}

/// A strip as plain values.
pub struct LedStripView {
    pub data: Seq<RgbColor>,
    pub brightness: u8,
}

impl View for LedStrip {
    type V = LedStripView;

    closed spec fn view(&self) -> LedStripView {
        LedStripView { data: self.data@, brightness: self.brightness }
    }
}

/// The frame that a strip sends: its colours, corrected.
pub open spec fn strip_frame(strip: LedStripView) -> Seq<RgbColor> {
    corrected_frame(strip.data, strip.brightness)
}

/// Six times the same colour.
pub open spec fn uniform(color: RgbColor) -> Seq<RgbColor> {
    Seq::new(NUM_LEDS as nat, |i: int| color)
}

/// One colour for the LED of the active button, another for the rest.
pub open spec fn marked(active_index: int, inactive: RgbColor, active: RgbColor) -> Seq<RgbColor> {
    Seq::new(
        NUM_LEDS as nat,
        |i: int|
            if i == active_index {
                active
            } else {
                inactive
            },
    )
}

/// Hue of LED `i` when the rainbow starts at `base_hue`.
pub open spec fn rainbow_hue(base_hue: int, i: int) -> u8 {
    ((base_hue + i * HUE_STEP) % 256) as u8
}

/// Colour of LED `i` when the rainbow starts at `base_hue`: that hue at
/// full saturation and full value.
pub open spec fn rainbow_color(base_hue: int, i: int) -> RgbColor {
    let rgb = hsv_value(rainbow_hue(base_hue, i), 255, 255);
    RgbColor { r: rgb.0, g: rgb.1, b: rgb.2 }
}

/// The six colours of the rainbow that starts at `base_hue`.
pub open spec fn rainbow_colors(base_hue: int) -> Seq<RgbColor> {
    Seq::new(NUM_LEDS as nat, |i: int| rainbow_color(base_hue, i))
}

/// Distance between the starting hues of a rainbow run of `steps` steps.
pub open spec fn rainbow_stride(steps: u8) -> int {
    256int / (steps as int)
}

/// Number of frames of a rainbow run: one for each multiple of the
/// stride that is a hue.
pub open spec fn rainbow_len(steps: u8) -> nat {
    (255int / rainbow_stride(steps) + 1) as nat
}

/// Number of steps in which the breathe effect fades in, and again out.
pub const BREATHE_STEPS: u8 = 20;

/// The fade level at place `j` of a breathe run: within each cycle of 40
/// places it climbs from 0 to 19 and comes down from 19 to 0.
pub open spec fn breathe_level(j: int) -> int {
    let place = j % 40;
    if place < 20 {
        place
    } else {
        39 - place
    }
}

/// The fade levels of a breathe run of `cycles` cycles, in the order in
/// which they are shown. A level counts in twentieths of the full
/// colour.
pub fn breathe_schedule(cycles: u8) -> (levels: Vec<u8>)
    ensures
        levels@.len() == 40 * cycles,
        forall|j: int| 0 <= j < levels@.len() ==> levels@[j] == breathe_level(j),
{
    let mut levels: Vec<u8> = Vec::new();
    let mut cycle: u8 = 0;
    while cycle < cycles
        invariant
            cycle <= cycles,
            levels@.len() == 40 * cycle,
            forall|j: int| 0 <= j < levels@.len() ==> levels@[j] == breathe_level(j),
        decreases cycles - cycle,
    {
        let mut step: u8 = 0;
        while step < BREATHE_STEPS
            invariant
                step <= BREATHE_STEPS,
                cycle < cycles,
                levels@.len() == 40 * cycle + step,
                forall|j: int| 0 <= j < levels@.len() ==> levels@[j] == breathe_level(j),
            decreases BREATHE_STEPS - step,
        {
            levels.push(step);
            step = step + 1;
        }
        let mut down: u8 = BREATHE_STEPS;
        while down > 0
            invariant
                down <= BREATHE_STEPS,
                cycle < cycles,
                levels@.len() == 40 * cycle + 20 + (BREATHE_STEPS - down),
                forall|j: int| 0 <= j < levels@.len() ==> levels@[j] == breathe_level(j),
            decreases down,
        {
            down = down - 1;
            levels.push(down);
        }
        cycle = cycle + 1;
    }
    levels
}

impl LedStrip {
    /// A strip with all LEDs off, at the default brightness.
    pub fn new() -> (strip: LedStrip)
        ensures
            strip@.data == uniform(RgbColor { r: 0, g: 0, b: 0 }),
            strip@.brightness == DEFAULT_BRIGHTNESS,
    {
        let strip = LedStrip {
            data: [RgbColor { r: 0, g: 0, b: 0 }; NUM_LEDS],
            brightness: DEFAULT_BRIGHTNESS,
        };
        assert(strip@.data =~= uniform(RgbColor { r: 0, g: 0, b: 0 }));
        strip
    }

    /// The colours as they were asked for, before any correction.
    pub fn colors(&self) -> (colors: [RgbColor; 6])
        ensures
            colors@ == self@.data,
    {
        self.data
    }

    /// The overall brightness.
    pub fn brightness(&self) -> (brightness: u8)
        ensures
            brightness == self@.brightness,
    {
        self.brightness
    }

    /// Update all LEDs with the same colour.
    pub fn set_all(&mut self, red: u8, green: u8, blue: u8) -> (frame: Vec<RgbColor>)
        ensures
            final(self)@.data == uniform(RgbColor { r: red, g: green, b: blue }),
            final(self)@.brightness == old(self)@.brightness,
            frame@ == strip_frame(final(self)@),
    {
        let color = RgbColor { r: red, g: green, b: blue };
        let mut i: usize = 0;
        while i < NUM_LEDS
            invariant
                i <= NUM_LEDS,
                self.brightness == old(self).brightness,
                forall|j: int| 0 <= j < i ==> self.data@[j] == color,
            decreases NUM_LEDS - i,
        {
            self.data[i] = color;
            i = i + 1;
        }
        assert(self@.data =~= uniform(color));
        self.update()
    }

    /// Set the colour of one LED. An index that names no LED is refused
    /// and changes nothing.
    pub fn set_led(&mut self, index: usize, red: u8, green: u8, blue: u8) -> (frame: Result<
        Vec<RgbColor>,
        &'static str,
    >)
        ensures
            frame is Ok <==> index < NUM_LEDS,
            frame matches Ok(sent) ==> {
                &&& final(self)@.data == old(self)@.data.update(
                    index as int,
                    RgbColor { r: red, g: green, b: blue },
                )
                &&& sent@ == strip_frame(final(self)@)
            },
            frame matches Err(message) ==> message@ == "LED index out of bounds"@ && final(self)@
                == old(self)@,
            final(self)@.brightness == old(self)@.brightness,
    {
        if index >= NUM_LEDS {
            return Err("LED index out of bounds");
        }
        self.data[index] = RgbColor { r: red, g: green, b: blue };
        assert(self@.data =~= old(self)@.data.update(
            index as int,
            RgbColor { r: red, g: green, b: blue },
        ));
        Ok(self.update())
    }

    /// Set the active button LED: `active_color` for the LED of index
    /// `active_index`, `inactive_color` for every other.
    pub fn set_active_button(
        &mut self,
        active_index: usize,
        inactive_color: RgbColor,
        active_color: RgbColor,
    ) -> (frame: Vec<RgbColor>)
        ensures
            final(self)@.data == marked(active_index as int, inactive_color, active_color),
            final(self)@.brightness == old(self)@.brightness,
            frame@ == strip_frame(final(self)@),
    {
        let mut i: usize = 0;
        while i < NUM_LEDS
            invariant
                i <= NUM_LEDS,
                self.brightness == old(self).brightness,
                forall|j: int|
                    0 <= j < i ==> self.data@[j] == (if j == active_index {
                        active_color
                    } else {
                        inactive_color
                    }),
            decreases NUM_LEDS - i,
        {
            self.data[i] = if i == active_index {
                active_color
            } else {
                inactive_color
            };
            i = i + 1;
        }
        assert(self@.data =~= marked(active_index as int, inactive_color, active_color));
        self.update()
    }

    /// Set the overall brightness.
    pub fn set_brightness(&mut self, brightness: u8)
        ensures
            final(self)@.brightness == brightness,
            final(self)@.data == old(self)@.data,
    {
        self.brightness = brightness;
    }

    /// The frame for the physical LEDs: every colour gamma-corrected and
    /// then scaled to the brightness of the strip.
    pub fn update(&self) -> (frame: Vec<RgbColor>)
        ensures
            frame@ == strip_frame(self@),
    {
        correct(self.data.as_slice(), self.brightness)
    }

    /// Puts the rainbow that starts at `base_hue` on the strip: the hue
    /// grows by 43 from one LED to the next and wraps at 256.
    pub fn rainbow_step(&mut self, base_hue: u8) -> (frame: Vec<RgbColor>)
        ensures
            final(self)@.data == rainbow_colors(base_hue as int),
            final(self)@.brightness == old(self)@.brightness,
            frame@ == strip_frame(final(self)@),
    {
        let mut i: usize = 0;
        while i < NUM_LEDS
            invariant
                i <= NUM_LEDS,
                self.brightness == old(self).brightness,
                forall|j: int| 0 <= j < i ==> self.data@[j] == rainbow_color(base_hue as int, j),
            decreases NUM_LEDS - i,
        {
            assert(i * HUE_STEP <= 5 * 43) by (nonlinear_arith)
                requires
                    0 <= i <= 5,
                    HUE_STEP == 43,
            ;
            let offset: u16 = (i as u16) * (HUE_STEP as u16);
            let hue: u8 = ((base_hue as u16 + offset) % 256) as u8;
            self.data[i] = hsv_to_rgb(hue, 255, 255);
            i = i + 1;
        }
        assert(self@.data =~= rainbow_colors(base_hue as int));
        self.update()
    }

    /// Rainbow effect: the frames of one run, in the order in which they
    /// are shown. The starting hue goes through the multiples of
    /// `256 / steps` from 0 up to 255. The strip ends with the colours of
    /// the last frame.
    pub fn rainbow(&mut self, steps: u8) -> (frames: Vec<Vec<RgbColor>>)
        requires
            steps > 0,
        ensures
            frames@.len() == rainbow_len(steps),
            forall|k: int|
                0 <= k < frames@.len() ==> (#[trigger] frames@[k])@ == corrected_frame(
                    rainbow_colors(k * rainbow_stride(steps)),
                    old(self)@.brightness,
                ),
            final(self)@.data == rainbow_colors((rainbow_len(steps) - 1) * rainbow_stride(steps)),
            final(self)@.brightness == old(self)@.brightness,
    {
        let stride: u16 = 256 / (steps as u16);
        let mut frames: Vec<Vec<RgbColor>> = Vec::new();
        let mut base_hue: u16 = 0;
        let ghost mut shown: int = 0;
        assert(stride >= 1) by {
            assert(256int / (steps as int) >= 1) by (nonlinear_arith)
                requires
                    0 < steps <= 255,
            ;
        }
        while base_hue <= 255
            invariant
                stride == rainbow_stride(steps),
                1 <= stride <= 256,
                base_hue == shown * stride,
                0 <= shown,
                base_hue <= 255 + stride,
                frames@.len() == shown,
                self.brightness == old(self).brightness,
                shown > 0 ==> self@.data == rainbow_colors((shown - 1) * stride),
                forall|k: int|
                    0 <= k < frames@.len() ==> (#[trigger] frames@[k])@ == corrected_frame(
                        rainbow_colors(k * stride),
                        old(self)@.brightness,
                    ),
            decreases 256 + 256 - base_hue,
        {
            let frame = self.rainbow_step(base_hue as u8);
            frames.push(frame);
            proof {
                assert((shown + 1) * stride == shown * stride + stride) by (nonlinear_arith);
                shown = shown + 1;
            }
            base_hue = base_hue + stride;
        }
        proof {
            // The loop ends at the first multiple of the stride past 255.
            assert(shown * stride > 255);
            assert((shown - 1) * stride <= 255) by {
                assert((shown - 1) * stride == shown * stride - stride) by (nonlinear_arith);
            }
            assert(shown - 1 == 255int / (stride as int)) by (nonlinear_arith)
                requires
                    shown * stride > 255,
                    (shown - 1) * stride <= 255,
                    stride >= 1,
            ;
        }
        frames
    }
}

} // verus!
