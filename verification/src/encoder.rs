//! The pulse timing engine: from edges on the encoder line to velocity
//! readings.
//!
//! The firmware waits for an edge, reads the level of the line and the
//! clock, and hands both to [`Encoder::on_edge`]. An edge that follows the
//! last accepted rising edge by less than the debounce time is noise and is
//! dropped. A rising edge that is not noise gives one reading, inversely
//! proportional to the time since the rising edge before it; the line has to
//! fall before the next rising edge counts.

use vstd::prelude::*;
use vstd::arithmetic::div_mod::lemma_div_is_ordered_by_denominator;
use crate::clock::{millis_in, span_millis, MAX_SPAN_TICKS};

verus! {

/// Edges closer than this to the last accepted rising edge are noise, in
/// milliseconds.
pub const DEBOUNCE_MS: u64 = 20;

/// Calibration constant: a reading is this over the elapsed milliseconds.
pub const CALIBRATION: u64 = 2000;

/// The reading for a rising edge that comes `elapsed_ms` milliseconds after
/// the one before it: the calibration constant over the elapsed time,
/// rounded down, and at least one.
pub open spec fn reading_at(elapsed_ms: int) -> int
    recommends
        elapsed_ms >= 1,
{
    if CALIBRATION as int / elapsed_ms >= 1 {
        CALIBRATION as int / elapsed_ms
    } else {
        1
    }
}

/// What an [`Encoder`] remembers.
pub struct PulseState {
    /// Clock ticks at the last accepted rising edge, or at creation.
    pub last_rising: u64,
    /// Whether the line has been high since that edge.
    pub level_high: bool,
}

/// The state after an edge and the reading that the edge gives, if any.
///
/// `now` is the clock at the edge, in ticks, `is_high` the level that the
/// edge led to, and `elapsed_ms` the time since the last accepted rising
/// edge, in milliseconds.
pub open spec fn observed(state: PulseState, is_high: bool, now: u64, elapsed_ms: u64) -> (
    PulseState,
    Option<u8>,
) {
    if elapsed_ms < DEBOUNCE_MS {
        (state, None)
    } else if !is_high {
        (PulseState { last_rising: state.last_rising, level_high: false }, None)
    } else if state.level_high {
        (state, None)
    } else {
        (
            PulseState { last_rising: now, level_high: true },
            Some(reading_at(elapsed_ms as int) as u8),
        )
    }
}

/// The pulse timing engine of one encoder line.
pub struct Encoder {
    last_high: u64,
    last_state: bool,
}

impl View for Encoder {
    type V = PulseState;

    closed spec fn view(&self) -> PulseState {
        PulseState { last_rising: self.last_high, level_high: self.last_state }
    }
}

/// The reading for an elapsed time that is not noise. It lies between one
/// and a hundred.
pub fn reading(elapsed_ms: u64) -> (value: u8)
    requires
        elapsed_ms >= DEBOUNCE_MS,
    ensures
        value == reading_at(elapsed_ms as int),
        1 <= value <= 100,
{
    let quotient: u64 = CALIBRATION / elapsed_ms;
    proof {
        lemma_div_is_ordered_by_denominator(
            CALIBRATION as int,
            DEBOUNCE_MS as int,
            elapsed_ms as int,
        );
    }
    if quotient >= 1 {
        quotient as u8
    } else {
        1
    }
}

impl Encoder {
    /// An engine created at clock time `now`, in ticks, with the line taken
    /// to be low.
    pub fn new(now: u64) -> (encoder: Encoder)
        ensures
            encoder@ == (PulseState { last_rising: now, level_high: false }),
    {
        Encoder { last_high: now, last_state: false }
    }

    /// Clock ticks at the last accepted rising edge, or at creation.
    pub fn last_rising(&self) -> (ticks: u64)
        ensures
            ticks == self@.last_rising,
    {
        self.last_high
    }

    /// Whether the line has been high since the last accepted rising edge.
    pub fn level_high(&self) -> (high: bool)
        ensures
            high == self@.level_high,
    {
        self.last_state
    }

    /// Takes in one edge, given the time since the last accepted rising
    /// edge in milliseconds.
    ///
    /// - Less than the debounce time: the edge is dropped, nothing changes.
    /// - A falling edge: the line is noted as low, no reading.
    /// - A rising edge while the line is noted as high: nothing changes.
    /// - A rising edge while the line is noted as low: the reading for
    ///   `elapsed_ms` is returned, `now` becomes the time of the last
    ///   accepted rising edge, and the line is noted as high.
    pub fn observe(&mut self, is_high: bool, now: u64, elapsed_ms: u64) -> (reading: Option<u8>)
        ensures
            (final(self)@, reading) == observed(old(self)@, is_high, now, elapsed_ms),
            elapsed_ms < DEBOUNCE_MS ==> reading is None && final(self)@ == old(self)@,
            reading is Some <==> elapsed_ms >= DEBOUNCE_MS && is_high && !old(self)@.level_high,
            reading matches Some(value) ==> value == reading_at(elapsed_ms as int) && 1 <= value
                <= 100,
    {
        if elapsed_ms < DEBOUNCE_MS {
            return None;
        }
        if !is_high {
            self.last_state = false;
            return None;
        }
        if self.last_state {
            return None;
        }
        let value = reading(elapsed_ms);
        self.last_high = now;
        self.last_state = true;
        Some(value)
    }

    /// Takes in one edge seen at clock time `now`, in ticks.
    ///
    /// The time since the last accepted rising edge is converted to
    /// milliseconds by the clock crate; the rest is [`Encoder::observe`].
    /// The clock must not have gone back behind the last accepted rising
    /// edge, nor further ahead of it than [`MAX_SPAN_TICKS`].
    pub fn on_edge(&mut self, is_high: bool, now: u64) -> (reading: Option<u8>)
        requires
            old(self)@.last_rising <= now,
            now - old(self)@.last_rising <= MAX_SPAN_TICKS,
        ensures
            (final(self)@, reading) == observed(
                old(self)@,
                is_high,
                now,
                millis_in((now - old(self)@.last_rising) as u64),
            ),
            reading matches Some(value) ==> 1 <= value <= 100,
    {
        let elapsed_ms = span_millis(now - self.last_high);
        self.observe(is_high, now, elapsed_ms)
    }
}

/// A longer time between rising edges never gives a larger reading.
pub proof fn lemma_reading_monotonic(shorter_ms: int, longer_ms: int)
    requires
        1 <= shorter_ms <= longer_ms,
    ensures
        reading_at(shorter_ms) >= reading_at(longer_ms),
        reading_at(longer_ms) >= 1,
{
    lemma_div_is_ordered_by_denominator(CALIBRATION as int, shorter_ms, longer_ms);
}

} // verus!
