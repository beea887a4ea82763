//! Spans of clock ticks in milliseconds.
//!
//! Timestamps reach this crate as tick counts of the firmware's clock. How
//! many ticks make a millisecond is the business of the clock crate, so the
//! conversion is left to it and only named here.

use vstd::prelude::*;

verus! {

/// The longest span, in ticks, that is converted to milliseconds. Below it
/// the conversion cannot overflow at any tick rate.
pub const MAX_SPAN_TICKS: u64 = 18_446_744_073_709_551;

/// Whole milliseconds in a span of `ticks` clock ticks, rounded down, as
/// `embassy_time::Duration::as_millis` computes them at the tick rate that
/// the clock crate was built with.
pub uninterp spec fn millis_in(ticks: u64) -> u64;

/// Calls `embassy_time::Duration::as_millis` on a duration of `ticks` ticks.
///
/// The call multiplies the tick count by a factor of at most one thousand
/// before it divides, which a span within [`MAX_SPAN_TICKS`] cannot
/// overflow. The contract claims only that the result is the one that the
/// name `millis_in` stands for.
#[verifier::external_body]
pub(crate) fn span_millis(ticks: u64) -> (ms: u64)
    requires
        ticks <= MAX_SPAN_TICKS,
    ensures
        ms == millis_in(ticks),
{
    embassy_time::Duration::from_ticks(ticks).as_millis()
}

} // verus!
