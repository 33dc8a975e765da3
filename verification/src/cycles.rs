//! Reconstruction of the cycle count from the tick counter and one look at the counter.

use vstd::prelude::*;

verus! {

/// One look at the counter: the value it stood at, and whether it had wrapped since the
/// look before.
///
/// Looking clears the wrap condition, so a sample is taken once and then used; the two
/// fields belong to the same instant.
#[derive(Clone, Copy, Debug, PartialEq, Eq, Structural)]
pub struct Sample {
    /// Value of the counter, between zero and the reload value.
    pub current: u32,
    /// Whether the counter underflowed since the wrap condition was last read.
    pub wrapped: bool,
}

/// Clock cycles counted by `ticks` whole periods of `reload + 1` cycles and a counter that
/// has come down from `reload` to `current`. A wrap that the tick counter has not seen
/// yet stands for one more whole period.
pub open spec fn cycles_at(reload: int, ticks: int, current: int, wrapped: bool) -> int {
    (reload + 1) * (ticks + if wrapped { 1int } else { 0int }) + (reload - current)
}

/// The part of a period that the counter has run through is less than a period: the
/// count lies in the period that follows the whole periods it holds.
pub proof fn lemma_cycles_within_period(reload: int, ticks: int, current: int, wrapped: bool)
    requires
        0 <= current <= reload,
    ensures
        (ticks + if wrapped { 1int } else { 0int }) * (reload + 1) <= cycles_at(
            reload,
            ticks,
            current,
            wrapped,
        ),
        cycles_at(reload, ticks, current, wrapped) < (ticks + if wrapped { 1int } else { 0int } + 1)
            * (reload + 1),
{
    let whole = ticks + if wrapped { 1int } else { 0int };
    assert((reload + 1) * whole == whole * (reload + 1)) by (nonlinear_arith);
    assert((whole + 1) * (reload + 1) == whole * (reload + 1) + (reload + 1)) by (nonlinear_arith);
}

} // verus!
