//! Pulse train of the single-wire LED protocol.
//!
//! Every bit of a colour becomes one pair of durations: how long the line
//! is high, then how long it is low. A colour goes out as green, red,
//! blue, each byte most significant bit first. One pair with a long low
//! time ends the frame, so that the chain latches what it received.

use vstd::prelude::*;
use crate::color::RgbColor;

verus! {

/// Shortest low time, in nanoseconds, that makes the chain latch.
pub const MIN_RESET_NS: u32 = 50_000;

/// High time and low time of one pulse, in nanoseconds.
#[derive(Debug, Clone, Copy, PartialEq, Eq, Structural)]
pub struct PulsePair {
    pub high_ns: u32,
    pub low_ns: u32,
}

/// The calibration of a chain: the pulse of a zero bit, the pulse of a
/// one bit, and the low time that ends a frame.
#[derive(Debug, Clone, Copy, PartialEq, Eq, Structural)]
pub struct TimingTable {
    pub zero: PulsePair,
    pub one: PulsePair,
    pub reset_low_ns: u32,
}

/// A timing table whose reset is long enough for the chain to latch.
#[derive(Debug, Clone, Copy, PartialEq, Eq)]
pub struct PulseTiming {
    table: TimingTable,
}

impl View for PulseTiming {
    type V = TimingTable;

    closed spec fn view(&self) -> TimingTable {
        self.table
    }
}

impl PulseTiming {
    #[verifier::type_invariant]
    spec fn latches(self) -> bool {
        self.table.reset_low_ns >= MIN_RESET_NS
    }

    /// Accepts a table if its reset lasts at least `MIN_RESET_NS`.
    pub fn new(table: TimingTable) -> (timing: Option<PulseTiming>)
        ensures
            timing is Some <==> table.reset_low_ns >= MIN_RESET_NS,
            timing is Some ==> timing->0@ == table,
    {
        if table.reset_low_ns >= MIN_RESET_NS {
            Some(PulseTiming { table })
        } else {
            None
        }
    }

    /// 350 ns high and 900 ns low for a zero, 900 ns high and 350 ns low
    /// for a one, 50 µs reset.
    pub fn nominal() -> (timing: PulseTiming)
        ensures
            timing@ == (TimingTable {
                zero: PulsePair { high_ns: 350, low_ns: 900 },
                one: PulsePair { high_ns: 900, low_ns: 350 },
                reset_low_ns: 50_000,
            }),
    {
        PulseTiming {
            table: TimingTable {
                zero: PulsePair { high_ns: 350, low_ns: 900 },
                one: PulsePair { high_ns: 900, low_ns: 350 },
                reset_low_ns: 50_000,
            },
        }
    }

    /// 400 ns high and 850 ns low for a zero, 800 ns high and 450 ns low
    /// for a one, 50 µs reset.
    pub fn alternate() -> (timing: PulseTiming)
        ensures
            timing@ == (TimingTable {
                zero: PulsePair { high_ns: 400, low_ns: 850 },
                one: PulsePair { high_ns: 800, low_ns: 450 },
                reset_low_ns: 50_000,
            }),
    {
        PulseTiming {
            table: TimingTable {
                zero: PulsePair { high_ns: 400, low_ns: 850 },
                one: PulsePair { high_ns: 800, low_ns: 450 },
                reset_low_ns: 50_000,
            },
        }
    }

    pub fn table(&self) -> (table: TimingTable)
        ensures
            table == self@,
            table.reset_low_ns >= MIN_RESET_NS,
    {
        proof {
            use_type_invariant(self);
        }
        self.table
    }

    /// The pair that ends a frame: no high time, the reset as low time.
    pub fn reset(&self) -> (pulse: PulsePair)
        ensures
            pulse == reset_pulse(self@),
            pulse.low_ns >= MIN_RESET_NS,
    {
        proof {
            use_type_invariant(self);
        }
        PulsePair { high_ns: 0, low_ns: self.table.reset_low_ns }
    }
}

/// Bit `k` of `byte` in the order of transmission: bit 0 is the most
/// significant one.
pub open spec fn bit_msb_first(byte: u8, k: int) -> bool {
    (byte >> ((7 - k) as u8)) & 1u8 == 1u8
}

/// The pulse that stands for a bit.
pub open spec fn pulse_for_bit(table: TimingTable, bit: bool) -> PulsePair {
    if bit {
        table.one
    } else {
        table.zero
    }
}

/// The eight pulses of one byte.
pub open spec fn byte_pulses(byte: u8, table: TimingTable) -> Seq<PulsePair> {
    Seq::new(8, |k: int| pulse_for_bit(table, bit_msb_first(byte, k)))
}

/// Byte of a colour by its place on the wire: green, red, blue.
pub open spec fn channel_byte(color: RgbColor, channel: int) -> u8 {
    if channel == 0 {
        color.g
    } else if channel == 1 {
        color.r
    } else {
        color.b
    }
}

/// Pulse `i` of the data part of a frame.
pub open spec fn data_pulse(colors: Seq<RgbColor>, table: TimingTable, i: int) -> PulsePair {
    pulse_for_bit(table, bit_msb_first(channel_byte(colors[i / 24], (i % 24) / 8), i % 8))
}

/// The pair that ends a frame.
pub open spec fn reset_pulse(table: TimingTable) -> PulsePair {
    PulsePair { high_ns: 0, low_ns: table.reset_low_ns }
}

/// The whole frame for `colors`: 24 pulses per colour, then the reset.
pub open spec fn frame_pulses(colors: Seq<RgbColor>, table: TimingTable) -> Seq<PulsePair> {
    Seq::new(
        24 * colors.len() + 1,
        |i: int|
            if i < 24 * colors.len() {
                data_pulse(colors, table, i)
            } else {
                reset_pulse(table)
            },
    )
}

/// Appends the eight pulses of `byte` to `out`.
pub fn push_byte(out: &mut Vec<PulsePair>, byte: u8, timing: &PulseTiming)
    ensures
        final(out)@ == old(out)@ + byte_pulses(byte, timing@),
{
    let table = timing.table();
    let ghost before = out@;
    let mut k: u8 = 0;
    while k < 8
        invariant
            k <= 8,
            table == timing@,
            out@.len() == before.len() + k,
            forall|j: int| 0 <= j < before.len() ==> out@[j] == before[j],
            forall|j: int|
                0 <= j < k ==> out@[before.len() + j] == pulse_for_bit(
                    table,
                    bit_msb_first(byte, j),
                ),
        decreases 8 - k,
    {
        let bit: u8 = (byte >> (7 - k)) & 1;
        if bit == 1 {
            out.push(table.one);
        } else {
            out.push(table.zero);
        }
        k = k + 1;
    }
    assert(out@ =~= before + byte_pulses(byte, timing@));
}

/// Writes the eight pulses of `byte` over `buffer`, from index `at` on.
pub fn write_byte(buffer: &mut Vec<PulsePair>, at: usize, byte: u8, timing: &PulseTiming)
    requires
        at + 8 <= old(buffer)@.len(),
    ensures
        final(buffer)@.len() == old(buffer)@.len(),
        final(buffer)@.subrange(at as int, at + 8) == byte_pulses(byte, timing@),
        forall|j: int|
            0 <= j < old(buffer)@.len() && !(at <= j < at + 8) ==> final(buffer)@[j] == old(
                buffer,
            )@[j],
{
    let table = timing.table();
    let ghost before = buffer@;
    let len: usize = buffer.len();
    let mut k: u8 = 0;
    while k < 8
        invariant
            k <= 8,
            table == timing@,
            at + 8 <= before.len(),
            before.len() == len,
            buffer@.len() == before.len(),
            forall|j: int|
                0 <= j < before.len() && !(at <= j < at + k) ==> buffer@[j] == before[j],
            forall|j: int|
                0 <= j < k ==> buffer@[at + j] == pulse_for_bit(table, bit_msb_first(byte, j)),
        decreases 8 - k,
    {
        let bit: u8 = (byte >> (7 - k)) & 1;
        let pulse = if bit == 1 {
            table.one
        } else {
            table.zero
        };
        buffer.set(at + k as usize, pulse);
        k = k + 1;
    }
    assert(buffer@.subrange(at as int, at + 8) =~= byte_pulses(byte, timing@));
}

/// The pulses of a single byte: eight pairs, the pair of index `k` being
/// the one-bit pulse if bit `k` of the byte, counted from the most
/// significant one, is set, and the zero-bit pulse if it is not.
pub fn encode_byte(byte: u8, timing: &PulseTiming) -> (out: Vec<PulsePair>)
    ensures
        out@.len() == 8,
        forall|k: int|
            0 <= k < 8 ==> out@[k] == (if bit_msb_first(byte, k) {
                timing@.one
            } else {
                timing@.zero
            }),
        out@ == byte_pulses(byte, timing@),
{
    let mut out: Vec<PulsePair> = Vec::new();
    push_byte(&mut out, byte, timing);
    assert(out@ =~= byte_pulses(byte, timing@));
    out
}

/// Splits `colors` into pulses as they are: each colour as green, red,
/// blue, most significant bit first, and the reset after the last one.
pub fn encode_pulses(colors: &[RgbColor], timing: &PulseTiming) -> (out: Vec<PulsePair>)
    ensures
        out@ == frame_pulses(colors@, timing@),
        out@.len() == 24 * colors@.len() + 1,
        out@.last().high_ns == 0,
        out@.last().low_ns >= MIN_RESET_NS,
{
    let mut out: Vec<PulsePair> = Vec::new();
    let mut i: usize = 0;
    while i < colors.len()
        invariant
            i <= colors@.len(),
            out@.len() == 24 * i,
            forall|j: int| 0 <= j < 24 * i ==> out@[j] == data_pulse(colors@, timing@, j),
        decreases colors@.len() - i,
    {
        let color = colors[i];
        let ghost before = out@;
        push_byte(&mut out, color.g, timing);
        push_byte(&mut out, color.r, timing);
        push_byte(&mut out, color.b, timing);
        assert forall|j: int| 0 <= j < 24 * (i + 1) implies out@[j] == data_pulse(
            colors@,
            timing@,
            j,
        ) by {
            if j < 24 * i {
                assert(out@[j] == before[j]);
            } else {
                let within = j - 24 * i;
                assert(j / 24 == i as int);
                assert(j % 24 == within);
                assert(j % 8 == within % 8);
                if within < 8 {
                    assert(out@[j] == byte_pulses(color.g, timing@)[within]);
                } else if within < 16 {
                    assert(out@[j] == byte_pulses(color.r, timing@)[within - 8]);
                } else {
                    assert(out@[j] == byte_pulses(color.b, timing@)[within - 16]);
                }
            }
        }
        i = i + 1;
    }
    out.push(timing.reset());
    assert(out@ =~= frame_pulses(colors@, timing@));
    out
}

/// Where the bytes of a colour lie in a frame: the pulses of LED `led`
/// start at index `24 * led`, eight for green, eight for red, eight for
/// blue, and the reset is the last pair of the frame.
pub proof fn lemma_frame_layout(colors: Seq<RgbColor>, table: TimingTable, led: int)
    requires
        0 <= led < colors.len(),
    ensures
        frame_pulses(colors, table).subrange(24 * led, 24 * led + 8) == byte_pulses(
            colors[led].g,
            table,
        ),
        frame_pulses(colors, table).subrange(24 * led + 8, 24 * led + 16) == byte_pulses(
            colors[led].r,
            table,
        ),
        frame_pulses(colors, table).subrange(24 * led + 16, 24 * led + 24) == byte_pulses(
            colors[led].b,
            table,
        ),
        frame_pulses(colors, table).last() == reset_pulse(table),
{
    let frame = frame_pulses(colors, table);
    assert forall|k: int| 0 <= k < 8 implies frame[24 * led + k] == byte_pulses(
        colors[led].g,
        table,
    )[k] by {
        let j = 24 * led + k;
        assert(j / 24 == led && j % 24 == k && j % 8 == k);
    }
    assert forall|k: int| 0 <= k < 8 implies frame[24 * led + 8 + k] == byte_pulses(
        colors[led].r,
        table,
    )[k] by {
        let j = 24 * led + 8 + k;
        assert(j / 24 == led && j % 24 == 8 + k && j % 8 == k);
    }
    assert forall|k: int| 0 <= k < 8 implies frame[24 * led + 16 + k] == byte_pulses(
        colors[led].b,
        table,
    )[k] by {
        let j = 24 * led + 16 + k;
        assert(j / 24 == led && j % 24 == 16 + k && j % 8 == k);
    }
    assert(frame.subrange(24 * led, 24 * led + 8) =~= byte_pulses(colors[led].g, table));
    assert(frame.subrange(24 * led + 8, 24 * led + 16) =~= byte_pulses(colors[led].r, table));
    assert(frame.subrange(24 * led + 16, 24 * led + 24) =~= byte_pulses(colors[led].b, table));
}

/// Longest pulse, in ticks, that the pulse peripheral takes: its pulse
/// codes hold a length in 15 bits.
pub const MAX_PULSE_TICKS: u16 = 0x7FFF;

/// A pulse pair in ticks of the pulse peripheral's clock.
#[derive(Debug, Clone, Copy, PartialEq, Eq, Structural)]
pub struct TickPair {
    pub high: u16,
    pub low: u16,
}

/// A duration of `ns` nanoseconds in ticks of a clock that makes
/// `ticks_per_us` ticks in a microsecond, rounded down.
pub open spec fn ticks_of(ns: u32, ticks_per_us: u32) -> int {
    ns as int * ticks_per_us as int / 1000
}

/// Both durations of a pulse are short enough for the peripheral.
pub open spec fn pulse_fits(pulse: PulsePair, ticks_per_us: u32) -> bool {
    ticks_of(pulse.high_ns, ticks_per_us) <= MAX_PULSE_TICKS && ticks_of(
        pulse.low_ns,
        ticks_per_us,
    ) <= MAX_PULSE_TICKS
}

/// A pulse in ticks.
pub open spec fn pulse_in_ticks(pulse: PulsePair, ticks_per_us: u32) -> TickPair {
    TickPair {
        high: ticks_of(pulse.high_ns, ticks_per_us) as u16,
        low: ticks_of(pulse.low_ns, ticks_per_us) as u16,
    }
}

/// Converts a duration to ticks, or gives `None` where the ticks are
/// more than the peripheral takes.
pub fn ticks_for(ns: u32, ticks_per_us: u32) -> (ticks: Option<u16>)
    ensures
        ticks is Some <==> ticks_of(ns, ticks_per_us) <= MAX_PULSE_TICKS,
        ticks matches Some(t) ==> t == ticks_of(ns, ticks_per_us),
{
    assert(ns as int * ticks_per_us as int <= 0xFFFF_FFFF * 0xFFFF_FFFF) by (nonlinear_arith)
        requires
            0 <= ns <= 0xFFFF_FFFF,
            0 <= ticks_per_us <= 0xFFFF_FFFF,
    ;
    let product: u64 = (ns as u64) * (ticks_per_us as u64);
    let ticks: u64 = product / 1000;
    if ticks <= MAX_PULSE_TICKS as u64 {
        Some(ticks as u16)
    } else {
        None
    }
}

/// Converts a frame to ticks, pulse by pulse and in order. One pulse
/// that is too long for the peripheral makes the whole frame `None`.
pub fn frame_ticks(pulses: &[PulsePair], ticks_per_us: u32) -> (ticks: Option<Vec<TickPair>>)
    ensures
        ticks is Some <==> forall|i: int|
            0 <= i < pulses@.len() ==> pulse_fits(#[trigger] pulses@[i], ticks_per_us),
        ticks matches Some(pairs) ==> pairs@ == Seq::new(
            pulses@.len(),
            |i: int| pulse_in_ticks(pulses@[i], ticks_per_us),
        ),
{
    let mut pairs: Vec<TickPair> = Vec::new();
    let mut i: usize = 0;
    while i < pulses.len()
        invariant
            i <= pulses@.len(),
            pairs@.len() == i,
            forall|j: int| 0 <= j < i ==> pulse_fits(#[trigger] pulses@[j], ticks_per_us),
            forall|j: int|
                0 <= j < i ==> pairs@[j] == pulse_in_ticks(pulses@[j], ticks_per_us),
        decreases pulses@.len() - i,
    {
        let pulse = pulses[i];
        let high = match ticks_for(pulse.high_ns, ticks_per_us) {
            Some(high) => high,
            None => {
                assert(!pulse_fits(pulses@[i as int], ticks_per_us));
                return None;
            },
        };
        let low = match ticks_for(pulse.low_ns, ticks_per_us) {
            Some(low) => low,
            None => {
                assert(!pulse_fits(pulses@[i as int], ticks_per_us));
                return None;
            },
        };
        pairs.push(TickPair { high, low });
        i = i + 1;
    }
    assert(pairs@ =~= Seq::new(pulses@.len(), |i: int| pulse_in_ticks(pulses@[i], ticks_per_us)));
    Some(pairs)
}

} // verus!
