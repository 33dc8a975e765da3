//! A monotonic time base on a countdown timer that reloads itself and raises an
//! interrupt on each underflow.
//!
//! The interrupt counts ticks. A query combines the tick counter with one look at the
//! running counter into a count of clock cycles that is exact to the cycle, also when
//! the counter has just wrapped and the interrupt has not been served yet.
//!
//! The time base is a value, [`TimeBase`], and every operation takes it by reference.
//! An operation that changes it needs the exclusive reference, so the interrupt
//! handler and the rest of the program cannot be inside two operations at once: whoever
//! shares the value between them hands the reference out with the interrupt held off.
//! The counter's registers are reached through plain values: an operation takes a
//! [`Sample`] where it looks at the counter, and returns a [`Command`] for each
//! register access that belongs to it.

pub mod command;
pub mod config;
pub mod cycles;
pub mod delay;
pub mod state;
pub mod timeline;

use vstd::prelude::*;
use crate::command::{init_sequence, Command};
use crate::config::ClockConfig;
use crate::cycles::Sample;
use crate::state::{State, HZ_PER_MHZ, MILLIS_PER_SECOND};

verus! {

/// The time base: the counter it holds, its configuration, the tick counter and the
/// callback slot.
///
/// `P` is the handle that stands for the counter. Whoever holds a `P` owns the counter,
/// so the time base owns it from initialization until it is handed back. `F` is the type
/// of the callback.
pub struct TimeBase<P, F: Fn(u64)> {
    peripheral: Option<P>,
    config: ClockConfig,
    ticks: u64,
    callback: Option<F>,
}

impl<P, F: Fn(u64)> View for TimeBase<P, F> {
    type V = State<P, F>;

    closed spec fn view(&self) -> State<P, F> {
        State {
            peripheral: self.peripheral,
            config: self.config,
            ticks: self.ticks as nat,
            callback: self.callback,
        }
    }
}

impl<P, F: Fn(u64)> TimeBase<P, F> {
    /// A time base that holds no counter yet and has no callback.
    pub fn new() -> (tb: Self)
        ensures
            tb@ == State::<P, F>::new(),
            tb@.wf(),
    {
        TimeBase {
            peripheral: None,
            config: ClockConfig { clock_freq_hz: 0, tick_freq_hz: 0, reload: 0 },
            ticks: 0,
            callback: None,
        }
    }

    /// Whether the time base holds the counter.
    pub fn is_bound(&self) -> (bound: bool)
        ensures
            bound == self@.bound(),
    {
        self.peripheral.is_some()
    }

    /// The configuration of the last initialization.
    pub fn config(&self) -> (config: ClockConfig)
        ensures
            config == self@.config,
    {
        self.config
    }

    /// Whether a callback is in the slot.
    pub fn has_callback(&self) -> (set: bool)
        ensures
            set == (self@.callback is Some),
    {
        self.callback.is_some()
    }

    /// The counter that the time base holds, to perform a command on it.
    pub fn peripheral_mut(&mut self) -> (peripheral: &mut P)
        requires
            old(self)@.bound(),
        ensures
            Some(*peripheral) == old(self)@.peripheral,
            final(self)@ == (State { peripheral: Some(*final(peripheral)), ..old(self)@ }),
    {
        match &mut self.peripheral {
            Some(peripheral) => peripheral,
            None => vstd::pervasive::unreached(),
        }
    }

    /// Decides [`State::can_tick`].
    pub fn can_tick(&self) -> (ok: bool)
        ensures
            ok == self@.can_tick(),
    {
        self.peripheral.is_some() && self.ticks < u64::MAX
    }

    /// Decides [`State::can_count`].
    pub fn can_count(&self, sample: Sample) -> (ok: bool)
        ensures
            ok == self@.can_count(sample),
    {
        if self.peripheral.is_none() || sample.current > self.config.reload {
            return false;
        }
        let period: u128 = self.config.reload as u128 + 1;
        let whole: u128 = self.ticks as u128 + if sample.wrapped { 1u128 } else { 0u128 };
        assert(period * whole <= 0x1_0000_0000 * 0x1_0000_0000_0000_0000) by (nonlinear_arith)
            requires
                period <= 0x1_0000_0000,
                whole <= 0x1_0000_0000_0000_0000,
        ;
        period * whole + (self.config.reload - sample.current) as u128 <= u64::MAX as u128
    }

    /// Decides [`State::can_tell_millis`].
    pub fn can_tell_millis(&self) -> (ok: bool)
        requires
            self@.wf(),
        ensures
            ok == self@.can_tell_millis(),
    {
        if self.peripheral.is_none() {
            return false;
        }
        let ticks: u128 = self.ticks as u128;
        let scale: u128 = MILLIS_PER_SECOND as u128;
        assert(ticks * scale <= 0x1_0000_0000_0000_0000 * 1_000) by (nonlinear_arith)
            requires
                ticks <= 0x1_0000_0000_0000_0000,
                scale == 1_000,
        ;
        ticks * scale / (self.config.tick_freq_hz as u128) <= u64::MAX as u128
    }

    /// Decides [`State::can_tell_micros`].
    pub fn can_tell_micros(&self, sample: Sample) -> (ok: bool)
        ensures
            ok == self@.can_tell_micros(sample),
    {
        self.can_count(sample) && self.config.clock_freq_hz >= HZ_PER_MHZ
    }
}

/// Initializes the time base for ticks of `tick_freq` Hz on a counter that `clock_freq`
/// Hz drive, and takes hold of the counter.
///
/// The tick counter starts from zero and the callback slot stays as it was. The commands
/// set the counter up and leave it halted: [`start`] lets it run. A counter that the time
/// base held before is dropped.
pub fn init_with_frequency<P, F: Fn(u64)>(
    tb: &mut TimeBase<P, F>,
    syst: P,
    clock_freq: u32,
    tick_freq: u32,
) -> (commands: [Command; 5])
    requires
        old(tb)@.wf(),
        ClockConfig::derivable(clock_freq, tick_freq),
    ensures
        final(tb)@ == old(tb)@.init(syst, ClockConfig::derived(clock_freq, tick_freq)),
        final(tb)@.wf(),
        commands@ == init_sequence(ClockConfig::derived(clock_freq, tick_freq).reload),
{
    // The tick counter starts with 0 after init.
    tb.ticks = 0;

    // One tick is `clock_freq / tick_freq` cycles, and the counter counts its zero too.
    let reload: u32 = clock_freq / tick_freq - 1;
    tb.config = ClockConfig { clock_freq_hz: clock_freq, tick_freq_hz: tick_freq, reload };

    tb.peripheral = Some(syst);

    [
        Command::DisableInterrupt,
        Command::UseCoreClock,
        Command::SetReload(reload),
        Command::ClearCurrent,
        Command::EnableInterrupt,
    ]
}

/// Hands the counter back and leaves the time base uninitialized.
///
/// Nothing is done to the counter: one that runs goes on running.
pub fn free<P, F: Fn(u64)>(tb: &mut TimeBase<P, F>) -> (syst: P)
    requires
        old(tb)@.wf(),
        old(tb)@.bound(),
    ensures
        Some(syst) == old(tb)@.peripheral,
        final(tb)@ == old(tb)@.free(),
        final(tb)@.wf(),
{
    tb.peripheral.take().unwrap()
}

/// Starts the counter. The time base stays as it is.
pub fn start<P, F: Fn(u64)>(tb: &TimeBase<P, F>) -> (command: Command)
    requires
        tb@.bound(),
    ensures
        command == Command::EnableCounter,
{
    Command::EnableCounter
}

/// Stops the counter. The time base stays as it is.
pub fn stop<P, F: Fn(u64)>(tb: &TimeBase<P, F>) -> (command: Command)
    requires
        tb@.bound(),
    ensures
        command == Command::DisableCounter,
{
    Command::DisableCounter
}

/// Resets the count: the tick counter goes back to zero, and the command clears the
/// counter. Whether the counter runs is not changed.
pub fn reset<P, F: Fn(u64)>(tb: &mut TimeBase<P, F>) -> (command: Command)
    requires
        old(tb)@.wf(),
        old(tb)@.bound(),
    ensures
        final(tb)@ == old(tb)@.reset(),
        final(tb)@.wf(),
        command == Command::ClearCurrent,
{
    tb.ticks = 0;
    Command::ClearCurrent
}

/// Returns the tick count.
pub fn ticks<P, F: Fn(u64)>(tb: &TimeBase<P, F>) -> (ticks: u64)
    requires
        tb@.bound(),
    ensures
        ticks == tb@.ticks,
{
    tb.ticks
}

/// Returns the number of clock cycles since the count began.
///
/// `sample` is a look at the counter taken while no underflow could be served, so that
/// it belongs to the tick count that the time base holds.
pub fn clock_cycles<P, F: Fn(u64)>(tb: &TimeBase<P, F>, sample: Sample) -> (cycles: u64)
    requires
        tb@.can_count(sample),
    ensures
        cycles == tb@.cycles(sample),
{
    let mut ticks: u64 = tb.ticks;
    let load: u32 = tb.config.reload;
    let val: u32 = sample.current;

    proof {
        let period = load as int + 1;
        let whole = ticks as int + if sample.wrapped { 1int } else { 0int };
        assert(whole <= period * whole) by (nonlinear_arith)
            requires
                1 <= period,
                0 <= whole,
        ;
    }
    if sample.wrapped {
        // The counter reached zero after the last underflow was served, and before it
        // was looked at: that period is not in the tick counter yet.
        ticks = ticks + 1;
    }
    (load as u64 + 1) * ticks + (load - val) as u64
}

/// Returns elapsed milliseconds, in whole ticks.
pub fn millis<P, F: Fn(u64)>(tb: &TimeBase<P, F>) -> (millis: u64)
    requires
        tb@.wf(),
        tb@.can_tell_millis(),
    ensures
        millis == tb@.millis(),
{
    let ticks: u128 = ticks(tb) as u128;
    let scale: u128 = MILLIS_PER_SECOND as u128;
    assert(ticks * scale <= 0x1_0000_0000_0000_0000 * 1_000) by (nonlinear_arith)
        requires
            ticks <= 0x1_0000_0000_0000_0000,
            scale == 1_000,
    ;
    (ticks * scale / (tb.config.tick_freq_hz as u128)) as u64
}

/// Returns elapsed microseconds, to the clock cycle.
pub fn micros<P, F: Fn(u64)>(tb: &TimeBase<P, F>, sample: Sample) -> (micros: u64)
    requires
        tb@.can_tell_micros(sample),
    ensures
        micros == tb@.micros(sample),
{
    clock_cycles(tb, sample) / ((tb.config.clock_freq_hz / HZ_PER_MHZ) as u64)
}

/// Sets the callback: it is called on each underflow, after the tick counter was
/// updated, with the new tick count.
///
/// The callback runs inside the interrupt handler and gets nothing but the count, so
/// it cannot reach the time base, nor its own slot.
pub fn set_callback<P, F: Fn(u64)>(tb: &mut TimeBase<P, F>, callback: F)
    requires
        old(tb)@.wf(),
        forall|tick: u64| call_requires(callback, (tick,)),
    ensures
        final(tb)@ == old(tb)@.with_callback(callback),
        final(tb)@.wf(),
{
    tb.callback = Some(callback);
}

/// Clears the callback.
pub fn clear_callback<P, F: Fn(u64)>(tb: &mut TimeBase<P, F>)
    requires
        old(tb)@.wf(),
    ensures
        final(tb)@ == old(tb)@.without_callback(),
        final(tb)@.wf(),
{
    tb.callback = None;
}

/// Serves one underflow. To be called from the interrupt handler of the counter, once
/// for each time it is entered.
pub fn interrupt<P, F: Fn(u64)>(tb: &mut TimeBase<P, F>) -> (command: Command)
    requires
        old(tb)@.wf(),
        old(tb)@.can_tick(),
    ensures
        final(tb)@ == old(tb)@.interrupt(),
        final(tb)@.wf(),
        command == Command::ClearWrapped,
        old(tb)@.delivery() matches Some((callback, tick)) ==> call_ensures(
            callback,
            (tick as u64,),
            (),
        ),
{
    irq(tb)
}

/// Serves one underflow, however the handler was entered.
fn irq<P, F: Fn(u64)>(tb: &mut TimeBase<P, F>) -> (command: Command)
    requires
        old(tb)@.wf(),
        old(tb)@.can_tick(),
    ensures
        final(tb)@ == old(tb)@.interrupt(),
        final(tb)@.wf(),
        command == Command::ClearWrapped,
        old(tb)@.delivery() matches Some((callback, tick)) ==> call_ensures(
            callback,
            (tick as u64,),
            (),
        ),
{
    // Increase the counter.
    tb.ticks = tb.ticks + 1;

    // Execute the optional callback.
    match &tb.callback {
        Some(callback) => {
            callback(tb.ticks);
        },
        None => {},
    }

    // The wrap condition belongs to the underflow that was just counted.
    Command::ClearWrapped
}

} // verus!
