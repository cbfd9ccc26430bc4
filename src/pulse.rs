use vstd::prelude::*;

use crate::color::{packed, Rgb};

verus! {

/// The logic level that a pulse drives the line to.
#[derive(Clone, Copy, Debug, PartialEq, Eq, Structural)]
pub enum Level {
    High,
    Low,
}

/// A level held for a number of ticks of the transmitter's counter.
#[derive(Clone, Copy, Debug, PartialEq, Eq, Structural)]
pub struct Pulse {
    pub level: Level,
    pub ticks: u16,
}

/// Why a colour could not be encoded.
#[derive(Clone, Copy, Debug, PartialEq, Eq, Structural)]
pub enum EncodeError {
    /// A pulse duration needs more ticks than a pulse can hold at the
    /// given tick rate.
    DurationUnrepresentable,
}

/// High time of a ZERO bit, in nanoseconds.
pub const ZERO_HIGH_NS: u64 = 350;

/// Low time of a ZERO bit, in nanoseconds.
pub const ZERO_LOW_NS: u64 = 800;

/// High time of a ONE bit, in nanoseconds.
pub const ONE_HIGH_NS: u64 = 700;

/// Low time of a ONE bit, in nanoseconds.
pub const ONE_LOW_NS: u64 = 600;

/// The most ticks that one pulse can last (15 bits).
pub const MAX_PULSE_TICKS: u16 = 32767;

/// Number of bits, and so of pulse pairs, in one frame.
pub const FRAME_BITS: usize = 24;

/// Nanoseconds in one second.
pub const NANOS_PER_SECOND: u128 = 1_000_000_000;

/// Whole ticks elapsed in `nanos` nanoseconds at `ticks_hz` ticks a second.
pub open spec fn ticks_for(ticks_hz: int, nanos: int) -> int {
    nanos * ticks_hz / NANOS_PER_SECOND as int
}

/// A pulse of `nanos` nanoseconds can be held at `ticks_hz`.
pub open spec fn representable(ticks_hz: int, nanos: int) -> bool {
    ticks_for(ticks_hz, nanos) <= MAX_PULSE_TICKS
}

/// The pulse of the given level and duration at `ticks_hz`.
pub open spec fn pulse_of(ticks_hz: int, level: Level, nanos: int) -> Pulse {
    Pulse { level, ticks: ticks_for(ticks_hz, nanos) as u16 }
}

/// High and low pulses for each bit value.
#[derive(Clone, Copy, Debug, PartialEq, Eq, Structural)]
pub struct BitTiming {
    pub zero_high: Pulse,
    pub zero_low: Pulse,
    pub one_high: Pulse,
    pub one_low: Pulse,
}

/// All four protocol durations can be held at `ticks_hz`.
pub open spec fn timing_representable(ticks_hz: int) -> bool {
    &&& representable(ticks_hz, ZERO_HIGH_NS as int)
    &&& representable(ticks_hz, ZERO_LOW_NS as int)
    &&& representable(ticks_hz, ONE_HIGH_NS as int)
    &&& representable(ticks_hz, ONE_LOW_NS as int)
}

/// The protocol's bit timing at `ticks_hz`.
pub open spec fn timing_for(ticks_hz: int) -> BitTiming {
    BitTiming {
        zero_high: pulse_of(ticks_hz, Level::High, ZERO_HIGH_NS as int),
        zero_low: pulse_of(ticks_hz, Level::Low, ZERO_LOW_NS as int),
        one_high: pulse_of(ticks_hz, Level::High, ONE_HIGH_NS as int),
        one_low: pulse_of(ticks_hz, Level::Low, ONE_LOW_NS as int),
    }
}

/// Bit `k` of `word` is set.
pub open spec fn bit_set(word: u32, k: u32) -> bool {
    (word >> k) & 1u32 == 1u32
}

/// The pulse pairs of `word`, one per bit, bit 23 first and bit 0 last.
pub open spec fn train_of(word: u32, t: BitTiming) -> Seq<(Pulse, Pulse)> {
    Seq::new(FRAME_BITS as nat, |i: int| t.pair(bit_set(word, (23 - i) as u32)))
}

/// Within one frame, bits of the same value are sent with the same pulse
/// pair, and a clear bit always with the ZERO pulses of the tick rate: every
/// ZERO-high pulse of a frame has the same tick count.
pub proof fn lemma_uniform_bit_pulses(word: u32, ticks_hz: int, i: int, j: int)
    requires
        0 <= i < FRAME_BITS,
        0 <= j < FRAME_BITS,
        bit_set(word, (23 - i) as u32) == bit_set(word, (23 - j) as u32),
    ensures
        train_of(word, timing_for(ticks_hz))[i] == train_of(word, timing_for(ticks_hz))[j],
        !bit_set(word, (23 - i) as u32) ==> train_of(word, timing_for(ticks_hz))[i] == (
            pulse_of(ticks_hz, Level::High, ZERO_HIGH_NS as int),
            pulse_of(ticks_hz, Level::Low, ZERO_LOW_NS as int),
        ),
        bit_set(word, (23 - i) as u32) ==> train_of(word, timing_for(ticks_hz))[i] == (
            pulse_of(ticks_hz, Level::High, ONE_HIGH_NS as int),
            pulse_of(ticks_hz, Level::Low, ONE_LOW_NS as int),
        ),
{
}

/// Converts a duration to ticks of a counter running at `ticks_hz`,
/// truncating, and fails where the count does not fit in a pulse.
pub fn pulse_ticks(ticks_hz: u32, nanos: u64) -> (r: Result<u16, EncodeError>)
    ensures
        r is Ok <==> representable(ticks_hz as int, nanos as int),
        r is Ok ==> r->Ok_0 as int == ticks_for(ticks_hz as int, nanos as int),
        r is Err ==> r->Err_0 == EncodeError::DurationUnrepresentable,
{
    assert(nanos as int * ticks_hz as int <= u64::MAX as int * u32::MAX as int) by (nonlinear_arith);
    let ticks: u128 = (nanos as u128) * (ticks_hz as u128) / NANOS_PER_SECOND;
    if ticks > MAX_PULSE_TICKS as u128 {
        Err(EncodeError::DurationUnrepresentable)
    } else {
        Ok(ticks as u16)
    }
}

impl Pulse {
    /// The pulse of the given level lasting `nanos` nanoseconds at
    /// `ticks_hz`.
    pub fn with_duration(ticks_hz: u32, level: Level, nanos: u64) -> (r: Result<Pulse, EncodeError>)
        ensures
            r is Ok <==> representable(ticks_hz as int, nanos as int),
            r is Ok ==> r->Ok_0 == pulse_of(ticks_hz as int, level, nanos as int),
            r is Err ==> r->Err_0 == EncodeError::DurationUnrepresentable,
    {
        let ticks = pulse_ticks(ticks_hz, nanos)?;
        Ok(Pulse { level, ticks })
    }
}

impl BitTiming {
    /// The (high, low) pair that sends a bit of value `bit`.
    pub open spec fn pair(self, bit: bool) -> (Pulse, Pulse) {
        if bit {
            (self.one_high, self.one_low)
        } else {
            (self.zero_high, self.zero_low)
        }
    }

    /// The four protocol pulses at `ticks_hz`, computed once for a frame.
    pub fn for_tick_rate(ticks_hz: u32) -> (r: Result<BitTiming, EncodeError>)
        ensures
            r is Ok <==> timing_representable(ticks_hz as int),
            r is Ok ==> r->Ok_0 == timing_for(ticks_hz as int),
            r is Err ==> r->Err_0 == EncodeError::DurationUnrepresentable,
    {
        let zero_high = Pulse::with_duration(ticks_hz, Level::High, ZERO_HIGH_NS)?;
        let zero_low = Pulse::with_duration(ticks_hz, Level::Low, ZERO_LOW_NS)?;
        let one_high = Pulse::with_duration(ticks_hz, Level::High, ONE_HIGH_NS)?;
        let one_low = Pulse::with_duration(ticks_hz, Level::Low, ONE_LOW_NS)?;
        Ok(BitTiming { zero_high, zero_low, one_high, one_low })
    }

    /// The (high, low) pair that sends a bit of value `bit`.
    pub fn pair_for(&self, bit: bool) -> (p: (Pulse, Pulse))
        ensures
            p == self.pair(bit),
    {
        if bit {
            (self.one_high, self.one_low)
        } else {
            (self.zero_high, self.zero_low)
        }
    }
}

/// The pulse train of a colour word: 24 pairs, most significant bit first.
pub fn encode_word(word: u32, timing: &BitTiming) -> (train: Vec<(Pulse, Pulse)>)
    ensures
        train@ == train_of(word, *timing),
{
    let mut train: Vec<(Pulse, Pulse)> = Vec::with_capacity(FRAME_BITS);
    let mut i: usize = 0;
    while i < FRAME_BITS
        invariant
            i <= FRAME_BITS,
            train@ == train_of(word, *timing).take(i as int),
        decreases FRAME_BITS - i,
    {
        let k: u32 = 23 - i as u32;
        let bit: bool = (word >> k) & 1 == 1;
        train.push(timing.pair_for(bit));
        i = i + 1;
        assert(train@ =~= train_of(word, *timing).take(i as int));
    }
    assert(train@ =~= train_of(word, *timing));
    train
}

/// The pulse train that shows `rgb` on a pixel whose transmitter counts
/// `ticks_hz` ticks a second.
pub fn encode(rgb: Rgb, ticks_hz: u32) -> (r: Result<Vec<(Pulse, Pulse)>, EncodeError>)
    ensures
        r is Ok <==> timing_representable(ticks_hz as int),
        r is Ok ==> r->Ok_0@ == train_of(packed(rgb), timing_for(ticks_hz as int)),
        r is Err ==> r->Err_0 == EncodeError::DurationUnrepresentable,
{
    let word: u32 = u32::from(rgb);
    let timing = BitTiming::for_tick_rate(ticks_hz)?;
    Ok(encode_word(word, &timing))
}

} // verus!
