//! Arithmetic of the audio path: how many samples a duration takes, and
//! the shape parameters of the beep.

use vstd::prelude::*;

verus! {

/// Sample rate for audio, in samples per second.
pub const SAMPLE_RATE: u32 = 44100;

/// Longest duration, in milliseconds, whose sample count can be worked
/// out in 32 bits.
pub const MAX_DURATION_MS: u32 = 97391;

/// Number of samples in `duration_ms` milliseconds, rounded down.
pub fn sample_count(duration_ms: u32) -> (count: usize)
    requires
        duration_ms <= MAX_DURATION_MS,
    ensures
        count == SAMPLE_RATE * duration_ms / 1000,
{
    (SAMPLE_RATE * duration_ms / 1000) as usize
}

/// Whether `sample_count` can be asked for a duration.
pub fn duration_fits(duration_ms: u32) -> (fits: bool)
    ensures
        fits == (SAMPLE_RATE * duration_ms <= u32::MAX),
        fits == (duration_ms <= MAX_DURATION_MS),
{
    duration_ms <= MAX_DURATION_MS
}

/// Peak of the beep for a volume from 0 to 255: the volume's share of
/// the largest sample value.
pub fn beep_amplitude(volume: u8) -> (amplitude: i16)
    ensures
        amplitude == volume * 32767 / 255,
        0 <= amplitude <= 32767,
{
    ((volume as u32 * i16::MAX as u32) / 255) as i16
}

/// Length of one cycle of a tone, in samples, rounded down.
pub fn beep_period(frequency: u32) -> (period: u32)
    requires
        frequency > 0,
    ensures
        period == SAMPLE_RATE / frequency,
{
    SAMPLE_RATE / frequency
}

} // verus!
