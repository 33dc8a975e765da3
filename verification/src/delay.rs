//! Helper functions for delays.
//!
//! A delay is a wait on the clock of the time base, and the waiting itself is done by
//! whoever can read that clock: take a reading at the start, then take readings for as
//! long as the function for the unit says that the delay goes on.

use vstd::prelude::*;

verus! {

/// Whether a delay of `value` milliseconds goes on, where the time base read `start`
/// milliseconds when the delay began and reads `now`.
///
/// A reading below `start` has not reached the end of the delay either.
pub fn delay_ms(start: u64, now: u64, value: u32) -> (waiting: bool)
    ensures
        waiting == (now < start + value),
{
    now < start || now - start < value as u64
}

/// Whether a delay of `value` microseconds goes on, where the time base read `start`
/// microseconds when the delay began and reads `now`.
///
/// A reading below `start` has not reached the end of the delay either.
pub fn delay_us(start: u64, now: u64, value: u32) -> (waiting: bool)
    ensures
        waiting == (now < start + value),
{
    now < start || now - start < value as u64
}

} // verus!
