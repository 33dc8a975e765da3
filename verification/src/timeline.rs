//! The counter as the time base relies on it, and what holds of the two over time.
//!
//! [`Counter`] states what the time base expects of the peripheral: it counts down
//! from the reload value to zero, starts over with the next cycle, and each time it
//! starts over it sets a wrap condition and asks for its interrupt. [`System`] puts a
//! counter beside the state of a time base and lets three things happen, one at a time:
//! a clock cycle, the interrupt handler, a query. The laws at the end say what a query
//! then reads.

use vstd::prelude::*;
use crate::cycles::Sample;
use crate::state::State;

verus! {

/// The countdown timer.
pub struct Counter {
    /// Value that the counter starts over from.
    pub reload: u32,
    /// Value that the counter stands at.
    pub current: u32,
    /// The wrap condition: the counter has started over since it was last looked at.
    pub wrapped: bool,
    /// The counter has started over and its interrupt has not been served yet.
    pub pending: bool,
}

impl Counter {
    /// The counter stays within its reload value, and a wrap that still shows is one
    /// whose interrupt has not been served: serving it clears the wrap condition.
    pub open spec fn wf(self) -> bool {
        &&& self.current <= self.reload
        &&& self.wrapped ==> self.pending
    }

    /// The counter right after it was set up or cleared: it stands at zero with no wrap
    /// to show, and no underflow waits to be served.
    pub open spec fn cleared(reload: u32) -> Counter {
        Counter { reload, current: 0, wrapped: false, pending: false }
    }

    /// The counter one clock cycle later.
    pub open spec fn cycle(self) -> Counter {
        if self.current == 0 {
            Counter { current: self.reload, wrapped: true, pending: true, ..self }
        } else {
            Counter { current: (self.current - 1) as u32, ..self }
        }
    }

    /// What a look at the counter shows.
    pub open spec fn sample(self) -> Sample {
        Sample { current: self.current, wrapped: self.wrapped }
    }

    /// The counter after a look at it: the wrap condition is cleared.
    pub open spec fn sampled(self) -> Counter {
        Counter { wrapped: false, ..self }
    }

    /// The counter after its interrupt was served.
    pub open spec fn served(self) -> Counter {
        Counter { wrapped: false, pending: false, ..self }
    }
}

/// What can happen to a time base and its counter.
pub enum Event {
    /// One clock cycle passes while the counter runs.
    Cycle,
    /// The interrupt handler serves an underflow.
    Interrupt,
    /// The program samples the counter and reads the cycle count.
    Query,
}

/// A time base together with the counter that it holds.
pub struct System<P, F> {
    /// The state of the time base.
    pub timebase: State<P, F>,
    /// The state of the counter.
    pub counter: Counter,
}

impl<P, F: Fn(u64)> System<P, F> {
    /// The time base holds the counter and was initialized with its reload value.
    pub open spec fn wf(self) -> bool {
        &&& self.timebase.wf()
        &&& self.timebase.bound()
        &&& self.counter.wf()
        &&& self.counter.reload == self.timebase.config.reload
    }

    /// No underflow is hidden from a query: one that is not served yet still shows in
    /// the wrap condition.
    pub open spec fn settled(self) -> bool {
        self.counter.pending ==> self.counter.wrapped
    }

    /// Whether `event` can happen now.
    ///
    /// The handler keeps up with the counter: an underflow is served before the next
    /// one. It runs when there is an underflow to serve. And it comes before the
    /// program: once a query has cleared the wrap condition of an underflow, that
    /// underflow is served before the next query.
    pub open spec fn admits(self, event: Event) -> bool {
        match event {
            Event::Cycle => self.counter.current == 0 ==> !self.counter.pending,
            Event::Interrupt => self.counter.pending,
            Event::Query => self.settled(),
        }
    }

    /// The system after `event`.
    pub open spec fn step(self, event: Event) -> Self {
        match event {
            Event::Cycle => System { counter: self.counter.cycle(), ..self },
            Event::Interrupt => System {
                timebase: self.timebase.interrupt(),
                counter: self.counter.served(),
            },
            Event::Query => System { counter: self.counter.sampled(), ..self },
        }
    }

    /// The system after `events`, the first of them first.
    pub open spec fn run(self, events: Seq<Event>) -> Self
        decreases events.len(),
    {
        if events.len() == 0 {
            self
        } else {
            self.run(events.drop_last()).step(events.last())
        }
    }

    /// Whether `events` can happen one after the other, the first of them now.
    pub open spec fn admits_all(self, events: Seq<Event>) -> bool
        decreases events.len(),
    {
        events.len() > 0 ==> {
            &&& self.admits_all(events.drop_last())
            &&& self.run(events.drop_last()).admits(events.last())
        }
    }

    /// What a query would read now.
    pub open spec fn reading(self) -> int {
        self.timebase.cycles(self.counter.sample())
    }

    /// Clock cycles since the count began, with every underflow in them, served or not.
    pub open spec fn elapsed(self) -> int {
        self.timebase.config.period() * (self.timebase.ticks + if self.counter.pending {
            1int
        } else {
            0int
        }) + (self.counter.reload - self.counter.current)
    }
}

/// Number of clock cycles among `events`.
pub open spec fn cycles_in(events: Seq<Event>) -> nat
    decreases events.len(),
{
    if events.len() == 0 {
        0
    } else {
        cycles_in(events.drop_last()) + if events.last() is Cycle {
            1nat
        } else {
            0nat
        }
    }
}

/// The count begins with initialization and begins anew with each reset. Both leave a
/// time base that holds the counter and has counted no tick; beside a counter just
/// cleared it makes a well-formed system, a query can be made, and it reads what a
/// counter at zero stands for: one cycle short of a whole period.
pub proof fn lemma_count_begins<P, F: Fn(u64)>(state: State<P, F>)
    requires
        state.wf(),
        state.bound(),
        state.ticks == 0,
    ensures
        ({
            let system = System { timebase: state, counter: Counter::cleared(state.config.reload) };
            &&& system.wf()
            &&& system.admits(Event::Query)
            &&& system.reading() == state.config.reload
        }),
{
    assert(state.config.period() * 0 == 0) by (nonlinear_arith);
}

/// One event keeps the system well formed, never takes a tick back, and moves the
/// elapsed count by one if it is a clock cycle and not at all otherwise.
pub proof fn lemma_step<P, F: Fn(u64)>(system: System<P, F>, event: Event)
    requires
        system.wf(),
        system.admits(event),
    ensures
        system.step(event).wf(),
        system.step(event).timebase.ticks >= system.timebase.ticks,
        system.step(event).elapsed() == system.elapsed() + if event is Cycle {
            1int
        } else {
            0int
        },
{
    let period = system.timebase.config.period();
    let ticks = system.timebase.ticks as int;
    assert(period * (ticks + 1) == period * ticks + period) by (nonlinear_arith);
}

/// The same of any number of events.
pub proof fn lemma_run<P, F: Fn(u64)>(system: System<P, F>, events: Seq<Event>)
    requires
        system.wf(),
        system.admits_all(events),
    ensures
        system.run(events).wf(),
        system.run(events).timebase.ticks >= system.timebase.ticks,
        system.run(events).elapsed() == system.elapsed() + cycles_in(events),
    decreases events.len(),
{
    if events.len() > 0 {
        lemma_run(system, events.drop_last());
        lemma_step(system.run(events.drop_last()), events.last());
    }
}

/// Where no underflow is hidden, a query reads the elapsed count.
pub proof fn lemma_reading_is_elapsed<P, F: Fn(u64)>(system: System<P, F>)
    requires
        system.wf(),
        system.settled(),
    ensures
        system.reading() == system.elapsed(),
{
}

/// A query is exact to the cycle: from one point at which a query can be made to
/// another, the reading grows by the number of clock cycles that passed, whatever the
/// handler and other queries did in between.
pub proof fn lemma_reading_counts_cycles<P, F: Fn(u64)>(system: System<P, F>, events: Seq<Event>)
    requires
        system.wf(),
        system.admits(Event::Query),
        system.admits_all(events),
        system.run(events).admits(Event::Query),
    ensures
        system.run(events).reading() == system.reading() + cycles_in(events),
{
    lemma_run(system, events);
    lemma_reading_is_elapsed(system);
    lemma_reading_is_elapsed(system.run(events));
}

/// Neither the cycle count nor the tick count ever goes back: of two queries with no
/// reset between them, the later reads no less than the earlier, and so does a reader of
/// the tick counter.
pub proof fn lemma_monotonic<P, F: Fn(u64)>(system: System<P, F>, events: Seq<Event>)
    requires
        system.wf(),
        system.admits(Event::Query),
        system.admits_all(events),
        system.run(events).admits(Event::Query),
    ensures
        system.run(events).reading() >= system.reading(),
        system.run(events).timebase.ticks >= system.timebase.ticks,
{
    lemma_run(system, events);
    lemma_reading_counts_cycles(system, events);
}

/// An underflow right before a query is counted once: the query that finds the wrap
/// condition set reads one whole period more than the tick counter holds, and once the
/// handler has served the underflow the next query reads the same.
pub proof fn lemma_boundary_race<P, F: Fn(u64)>(system: System<P, F>)
    requires
        system.wf(),
        system.counter.current == 0,
        !system.counter.pending,
    ensures
        system.admits(Event::Cycle),
        system.step(Event::Cycle).admits(Event::Query),
        system.step(Event::Cycle).reading() == (system.timebase.ticks + 1)
            * system.timebase.config.period(),
        system.step(Event::Cycle).step(Event::Query).admits(Event::Interrupt),
        system.step(Event::Cycle).step(Event::Query).step(Event::Interrupt).reading() == (
        system.timebase.ticks + 1) * system.timebase.config.period(),
{
    let period = system.timebase.config.period();
    let ticks = system.timebase.ticks as int;
    assert(period * (ticks + 1) == (ticks + 1) * period) by (nonlinear_arith);
}

} // verus!
