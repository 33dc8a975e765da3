//! The state of the time base, and what each operation makes of it.
//!
//! [`State`] is the state as contracts and proofs see it, with every operation written
//! as a function from state to state. It is the view of the [`TimeBase`](crate::TimeBase)
//! that a program holds.

use vstd::prelude::*;
use crate::config::ClockConfig;
use crate::cycles::{cycles_at, lemma_cycles_within_period, Sample};

verus! {

/// Microseconds are counted in clock cycles per microsecond.
pub const HZ_PER_MHZ: u32 = 1_000_000;

/// Milliseconds in a second.
pub const MILLIS_PER_SECOND: u64 = 1_000;

/// The time base as contracts and proofs see it.
pub struct State<P, F> {
    /// The counter, while the time base holds it. `None` is the uninitialized state.
    pub peripheral: Option<P>,
    /// The configuration of the last initialization.
    pub config: ClockConfig,
    /// Underflows served since the last initialization or reset.
    pub ticks: nat,
    /// What to call on each underflow, if anything.
    pub callback: Option<F>,
}

impl<P, F: Fn(u64)> State<P, F> {
    /// The state that a time base begins in: uninitialized, with the slot empty.
    pub open spec fn new() -> Self {
        State {
            peripheral: None,
            config: ClockConfig { clock_freq_hz: 0, tick_freq_hz: 0, reload: 0 },
            ticks: 0,
            callback: None,
        }
    }

    /// A time base that holds the counter has a well-formed configuration, and a
    /// callback in the slot can be called with any tick count.
    pub open spec fn wf(self) -> bool {
        &&& self.peripheral is Some ==> self.config.wf()
        &&& self.callback matches Some(f) ==> forall|tick: u64| call_requires(f, (tick,))
    }

    /// Whether the time base holds the counter.
    pub open spec fn bound(self) -> bool {
        self.peripheral is Some
    }

    /// The state that initialization leaves: the counter held, the configuration stored,
    /// no tick counted. The callback slot stays as it was.
    pub open spec fn init(self, peripheral: P, config: ClockConfig) -> Self {
        State { peripheral: Some(peripheral), config, ticks: 0, callback: self.callback }
    }

    /// The state after the counter was handed back.
    pub open spec fn free(self) -> Self {
        State { peripheral: None, ..self }
    }

    /// The state after a reset: no tick counted, all else as before.
    pub open spec fn reset(self) -> Self {
        State { ticks: 0, ..self }
    }

    /// The state after one underflow was served.
    pub open spec fn interrupt(self) -> Self {
        State { ticks: self.ticks + 1, ..self }
    }

    /// The call that serving one underflow makes: the callback, and the tick count that
    /// it is called with, which already includes this underflow. `None` while the slot is
    /// empty.
    pub open spec fn delivery(self) -> Option<(F, nat)> {
        match self.callback {
            Some(callback) => Some((callback, self.ticks + 1)),
            None => None,
        }
    }

    /// The state with `callback` in the slot.
    pub open spec fn with_callback(self, callback: F) -> Self {
        State { callback: Some(callback), ..self }
    }

    /// The state with the slot empty.
    pub open spec fn without_callback(self) -> Self {
        State { callback: None, ..self }
    }

    /// Clock cycles since the count began, as one sample of the counter shows them.
    pub open spec fn cycles(self, sample: Sample) -> int {
        cycles_at(self.config.reload as int, self.ticks as int, sample.current as int, sample.wrapped)
    }

    /// Milliseconds since the count began, in whole ticks.
    pub open spec fn millis(self) -> int {
        self.ticks * MILLIS_PER_SECOND / self.config.tick_freq_hz as int
    }

    /// Microseconds since the count began, as one sample of the counter shows them. The
    /// clock is taken at whole MHz: what is left of its frequency is dropped.
    pub open spec fn micros(self, sample: Sample) -> int {
        self.cycles(sample) / (self.config.clock_freq_hz as int / HZ_PER_MHZ as int)
    }

    /// An underflow can be served: the counter is held and the tick counter has room.
    pub open spec fn can_tick(self) -> bool {
        &&& self.bound()
        &&& self.ticks < u64::MAX
    }

    /// A sample can be turned into a cycle count: the counter is held, the sample is one
    /// that a counter with this reload value gives, and the count fits 64 bits.
    pub open spec fn can_count(self, sample: Sample) -> bool {
        &&& self.bound()
        &&& sample.current <= self.config.reload
        &&& self.cycles(sample) <= u64::MAX
    }

    /// The milliseconds can be told: the counter is held and they fit 64 bits.
    pub open spec fn can_tell_millis(self) -> bool {
        &&& self.bound()
        &&& self.millis() <= u64::MAX
    }

    /// The microseconds can be told: the cycles can be counted, and the clock makes at
    /// least one cycle per microsecond.
    pub open spec fn can_tell_micros(self, sample: Sample) -> bool {
        &&& self.can_count(sample)
        &&& self.config.clock_freq_hz >= HZ_PER_MHZ
    }
}

impl<P, F: Fn(u64)> State<P, F> {
    /// The state after `count` underflows were served one after the other.
    pub open spec fn underflows(self, count: nat) -> Self
        decreases count,
    {
        if count == 0 {
            self
        } else {
            self.interrupt().underflows((count - 1) as nat)
        }
    }

    /// The tick counts that the callback is called with while `count` underflows are
    /// served one after the other, in the order of the calls.
    pub open spec fn deliveries(self, count: nat) -> Seq<nat>
        decreases count,
    {
        if count == 0 {
            Seq::empty()
        } else {
            let rest = self.interrupt().deliveries((count - 1) as nat);
            match self.delivery() {
                Some((_, tick)) => seq![tick] + rest,
                None => rest,
            }
        }
    }
}

/// While no wrap waits to be served, the cycle count lies in the period that follows
/// the ticks counted: the running counter adds less than one tick.
pub proof fn lemma_cycles_within_tick<P, F: Fn(u64)>(state: State<P, F>, sample: Sample)
    requires
        sample.current <= state.config.reload,
        !sample.wrapped,
    ensures
        state.ticks * state.config.period() <= state.cycles(sample),
        state.cycles(sample) < (state.ticks + 1) * state.config.period(),
{
    lemma_cycles_within_period(
        state.config.reload as int,
        state.ticks as int,
        sample.current as int,
        sample.wrapped,
    );
}

/// With a callback in the slot, serving `count` underflows calls it `count` times, and
/// the call for the `k`-th underflow gets the tick count that it started from plus `k`.
/// With the slot empty nothing is called.
pub proof fn lemma_callback_delivery<P, F: Fn(u64)>(state: State<P, F>, count: nat)
    ensures
        state.underflows(count).ticks == state.ticks + count,
        state.underflows(count).callback == state.callback,
        state.callback is Some ==> state.deliveries(count).len() == count,
        state.callback is Some ==> forall|k: int|
            1 <= k <= count ==> #[trigger] state.deliveries(count)[k - 1] == state.ticks + k,
        state.callback is None ==> state.deliveries(count).len() == 0,
    decreases count,
{
    if count > 0 {
        let next = state.interrupt();
        let rest = next.deliveries((count - 1) as nat);
        lemma_callback_delivery(next, (count - 1) as nat);
        if state.callback is Some {
            assert forall|k: int| 1 <= k <= count implies #[trigger] state.deliveries(count)[k - 1]
                == state.ticks + k by {
                if k > 1 {
                    assert(state.deliveries(count)[k - 1] == rest[k - 2]);
                }
            }
        }
    }
}

/// After a reset no tick is counted, and a query that finds no wrap reads just what the
/// counter has run through: nothing of the time before the reset is left in the count.
pub proof fn lemma_reset_starts_over<P, F: Fn(u64)>(state: State<P, F>, sample: Sample)
    requires
        !sample.wrapped,
    ensures
        state.reset().ticks == 0,
        state.reset().cycles(sample) == state.config.reload - sample.current,
{
    assert(state.config.period() * 0 == 0) by (nonlinear_arith);
}

} // verus!
