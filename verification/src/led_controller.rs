//! Controller of the LED chain that fills a pulse buffer of fixed size.
//!
//! The controller owns the buffer and writes each frame into its front.
//! Every colour is corrected first, gamma and then brightness, and the
//! corrected bytes are what is split into pulses. Sending the filled part
//! down the wire is the caller's business.

use vstd::prelude::*;
use crate::color::RgbColor;
use crate::color_vec::{ColorBuffer, COLOR_CAPACITY};
use crate::correction::{correct, corrected_frame};
use crate::pulse::{frame_pulses, write_byte, PulsePair, PulseTiming, TimingTable};
use vstd::slice::slice_subrange;

verus! {

/// What a controller is made of, as plain values.
pub struct ControllerView {
    pub led_count: nat,
    pub buffer: Seq<PulsePair>,
    pub table: TimingTable,
    pub brightness: u8,
}

#[derive(Debug)]
pub struct LedController {
    led_count: usize,
    buffer: Vec<PulsePair>,
    timing: PulseTiming,
    brightness: u8,
}

impl View for LedController {
    type V = ControllerView;

    closed spec fn view(&self) -> ControllerView {
        ControllerView {
            led_count: self.led_count as nat,
            buffer: self.buffer@,
            table: self.timing@,
            brightness: self.brightness,
        }
    }
}

/// Slots that a frame of `led_count` LEDs takes: 24 per LED and one for
/// the reset.
pub open spec fn slots_for(led_count: nat) -> nat {
    24 * led_count + 1
}

/// The number of colours that a call of `show` encodes.
pub open spec fn shown_count(offered: nat, led_count: nat) -> nat {
    if offered < led_count {
        offered
    } else {
        led_count
    }
}

/// Slots that a frame of `led_count` LEDs takes, or `None` if that
/// number is beyond what the machine can count.
pub fn slots_needed(led_count: usize) -> (slots: Option<usize>)
    ensures
        slots is Some <==> slots_for(led_count as nat) <= usize::MAX,
        slots is Some ==> slots->0 == slots_for(led_count as nat),
{
    if led_count <= (usize::MAX - 1) / 24 {
        Some(24 * led_count + 1)
    } else {
        None
    }
}

impl LedController {
    /// The buffer can hold a frame for every LED of the chain.
    pub open spec fn wf(self) -> bool {
        self@.buffer.len() >= slots_for(self@.led_count)
    }

    /// A controller for `led_count` LEDs over `buffer`, at a global
    /// brightness from 0 to 255. A buffer with fewer than
    /// `24 * led_count + 1` slots cannot hold a frame and is not
    /// accepted.
    pub fn new(
        buffer: Vec<PulsePair>,
        led_count: usize,
        timing: PulseTiming,
        brightness: u8,
    ) -> (controller: LedController)
        requires
            buffer@.len() >= slots_for(led_count as nat),
        ensures
            controller.wf(),
            controller@ == (ControllerView {
                led_count: led_count as nat,
                buffer: buffer@,
                table: timing@,
                brightness,
            }),
    {
        LedController { led_count, buffer, timing, brightness }
    }

    /// Sets the global brightness for the frames to come. The buffer
    /// keeps what it holds.
    pub fn set_brightness(&mut self, brightness: u8)
        ensures
            final(self)@ == (ControllerView { brightness, ..old(self)@ }),
    {
        self.brightness = brightness;
    }

    pub fn brightness(&self) -> (brightness: u8)
        ensures
            brightness == self@.brightness,
    {
        self.brightness
    }

    pub fn led_count(&self) -> (count: usize)
        ensures
            count == self@.led_count,
    {
        self.led_count
    }

    /// The pulse buffer. After `show` its first slots hold the frame.
    pub fn buffer(&self) -> (buffer: &[PulsePair])
        ensures
            buffer@ == self@.buffer,
    {
        self.buffer.as_slice()
    }

    /// Shows the colours in `colors`, as many as there are LEDs and no
    /// more. Each channel byte is gamma-corrected and scaled to the
    /// brightness of the controller; the corrected bytes are then split
    /// into pulses at the front of the buffer, green, red, blue, most
    /// significant bit first, and the reset follows. Returns the number
    /// of slots filled. The slots behind them keep what they held.
    pub fn show(&mut self, colors: &[RgbColor]) -> (filled: usize)
        requires
            old(self).wf(),
        ensures
            final(self).wf(),
            filled == slots_for(shown_count(colors@.len(), old(self)@.led_count)),
            final(self)@.buffer.subrange(0, filled as int) == frame_pulses(
                corrected_frame(
                    colors@.take(shown_count(colors@.len(), old(self)@.led_count) as int),
                    old(self)@.brightness,
                ),
                old(self)@.table,
            ),
            final(self)@.buffer.len() == old(self)@.buffer.len(),
            forall|j: int|
                filled <= j < old(self)@.buffer.len() ==> final(self)@.buffer[j] == old(
                    self,
                )@.buffer[j],
            final(self)@.led_count == old(self)@.led_count,
            final(self)@.table == old(self)@.table,
            final(self)@.brightness == old(self)@.brightness,
    {
        let count: usize = if colors.len() < self.led_count {
            colors.len()
        } else {
            self.led_count
        };
        let shown = slice_subrange(colors, 0, count);
        assert(shown@ =~= colors@.take(count as int));
        let corrected = correct(shown, self.brightness);
        self.write_frame(corrected.as_slice())
    }

    /// Splits `colors` as they are into pulses at the front of the
    /// buffer and ends them with the reset.
    fn write_frame(&mut self, colors: &[RgbColor]) -> (filled: usize)
        requires
            old(self).wf(),
            colors@.len() <= old(self)@.led_count,
        ensures
            final(self).wf(),
            filled == slots_for(colors@.len()),
            final(self)@.buffer.subrange(0, filled as int) == frame_pulses(
                colors@,
                old(self)@.table,
            ),
            final(self)@.buffer.len() == old(self)@.buffer.len(),
            forall|j: int|
                filled <= j < old(self)@.buffer.len() ==> final(self)@.buffer[j] == old(
                    self,
                )@.buffer[j],
            final(self)@.led_count == old(self)@.led_count,
            final(self)@.table == old(self)@.table,
            final(self)@.brightness == old(self)@.brightness,
    {
        let count: usize = colors.len();
        let ghost shown = colors@;
        let ghost before = self.buffer@;
        let len: usize = self.buffer.len();
        let mut i: usize = 0;
        while i < count
            invariant
                i <= count,
                before.len() == len,
                count <= colors@.len(),
                count <= self.led_count,
                shown == colors@,
                count == colors@.len(),
                self.buffer@.len() == before.len(),
                before.len() >= slots_for(self.led_count as nat),
                self.led_count == old(self).led_count,
                self.timing == old(self).timing,
                self.brightness == old(self).brightness,
                forall|j: int|
                    0 <= j < 24 * i ==> self.buffer@[j] == frame_pulses(shown, self.timing@)[j],
                forall|j: int| 24 * i <= j < before.len() ==> self.buffer@[j] == before[j],
            decreases count - i,
        {
            let color = colors[i];
            let at: usize = 24 * i;
            let ghost mid = self.buffer@;
            write_byte(&mut self.buffer, at, color.g, &self.timing);
            write_byte(&mut self.buffer, at + 8, color.r, &self.timing);
            write_byte(&mut self.buffer, at + 16, color.b, &self.timing);
            proof {
                crate::pulse::lemma_frame_layout(shown, self.timing@, i as int);
                let frame = frame_pulses(shown, self.timing@);
                assert forall|j: int| 0 <= j < 24 * (i + 1) implies self.buffer@[j] == frame[j] by {
                    if j < at {
                        assert(self.buffer@[j] == mid[j]);
                    } else if j < at + 8 {
                        assert(self.buffer@[j] == self.buffer@.subrange(at as int, at + 8)[j - at]);
                        assert(frame[j] == frame.subrange(at as int, at + 8)[j - at]);
                    } else if j < at + 16 {
                        assert(self.buffer@[j] == self.buffer@.subrange(at + 8, at + 16)[j - at
                            - 8]);
                        assert(frame[j] == frame.subrange(at + 8, at + 16)[j - at - 8]);
                    } else {
                        assert(self.buffer@[j] == self.buffer@.subrange(at + 16, at + 24)[j - at
                            - 16]);
                        assert(frame[j] == frame.subrange(at + 16, at + 24)[j - at - 16]);
                    }
                }
            }
            i = i + 1;
        }
        let end: usize = 24 * count;
        self.buffer.set(end, self.timing.reset());
        assert(self.buffer@.subrange(0, end + 1) =~= frame_pulses(shown, self.timing@));
        end + 1
    }

    /// Shows one colour on every LED, corrected as `show` corrects. The
    /// colours go through a buffer of 32 places, so a chain longer than
    /// that is not accepted.
    pub fn set_all(&mut self, color: RgbColor) -> (filled: usize)
        requires
            old(self).wf(),
            old(self)@.led_count <= COLOR_CAPACITY,
        ensures
            final(self).wf(),
            filled == slots_for(old(self)@.led_count),
            final(self)@.buffer.subrange(0, filled as int) == frame_pulses(
                corrected_frame(
                    Seq::new(old(self)@.led_count, |i: int| color),
                    old(self)@.brightness,
                ),
                old(self)@.table,
            ),
            final(self)@.buffer.len() == old(self)@.buffer.len(),
            forall|j: int|
                filled <= j < old(self)@.buffer.len() ==> final(self)@.buffer[j] == old(
                    self,
                )@.buffer[j],
            final(self)@.led_count == old(self)@.led_count,
            final(self)@.table == old(self)@.table,
            final(self)@.brightness == old(self)@.brightness,
    {
        let colors = ColorBuffer::filled(color, self.led_count);
        let shown = colors.as_slice();
        assert(shown@.take(shown@.len() as int) =~= shown@);
        self.show(shown)
    }
}

} // verus!
