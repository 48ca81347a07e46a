//! The colour pulse encoder: from logical colours to the pulse train.

use vstd::prelude::*;
use crate::color::RgbColor;
use crate::correction::{correct, corrected_frame};
use crate::pulse::{encode_pulses, frame_pulses, PulsePair, PulseTiming, TimingTable, MIN_RESET_NS};

verus! {

/// The pulse train for `colors` at a brightness level.
pub open spec fn encoded(colors: Seq<RgbColor>, level: u8, table: TimingTable) -> Seq<PulsePair> {
    frame_pulses(corrected_frame(colors, level), table)
}

/// Encodes a frame. Each channel byte is gamma-corrected and scaled to
/// `brightness` first; the corrected bytes are then split into pulses,
/// green, red, blue, most significant bit first, and the reset pair ends
/// the frame. The result depends on the three arguments alone.
pub fn encode(colors: &[RgbColor], brightness: u8, timing: &PulseTiming) -> (out: Vec<PulsePair>)
    ensures
        out@ == encoded(colors@, brightness, timing@),
        out@.len() == 24 * colors@.len() + 1,
        out@.last().high_ns == 0,
        out@.last().low_ns >= MIN_RESET_NS,
{
    let corrected = correct(colors, brightness);
    encode_pulses(corrected.as_slice(), timing)
}

/// Encoding is a function of its input: two frames that `encode` may
/// return for the same colours, brightness and timing are the same
/// sequence of pulses.
pub proof fn lemma_encode_is_deterministic(
    colors: Seq<RgbColor>,
    level: u8,
    table: TimingTable,
    first: Seq<PulsePair>,
    second: Seq<PulsePair>,
)
    requires
        first == encoded(colors, level, table),
        second == encoded(colors, level, table),
    ensures
        first == second,
        first.len() == 24 * colors.len() + 1,
{
}

} // verus!
