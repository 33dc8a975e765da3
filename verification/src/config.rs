//! Clock configuration: the reload value that turns a clock rate into a tick rate.

use vstd::prelude::*;

verus! {

/// Largest value that the reload register holds: it is 24 bits wide.
pub const RELOAD_MAX: u32 = 0x00FF_FFFF;

/// The frequencies a time base was set up with, and the reload value that follows from them.
///
/// The counter runs from `reload` down to zero and then starts over, so one tick lasts
/// `reload + 1` clock cycles.
#[derive(Clone, Copy, Debug, PartialEq, Eq, Structural)]
pub struct ClockConfig {
    /// Frequency of the clock that drives the counter, in Hz.
    pub clock_freq_hz: u32,
    /// Frequency of the ticks, in Hz.
    pub tick_freq_hz: u32,
    /// Value that the counter is reloaded with on each underflow.
    pub reload: u32,
}

impl ClockConfig {
    /// Whether a reload value exists for the two frequencies: both are positive, and
    /// `clock_freq_hz / tick_freq_hz - 1` lies in the range of the reload register.
    pub open spec fn derivable(clock_freq_hz: u32, tick_freq_hz: u32) -> bool {
        &&& clock_freq_hz > 0
        &&& tick_freq_hz > 0
        &&& 0 <= clock_freq_hz as int / tick_freq_hz as int - 1 <= RELOAD_MAX
    }

    /// The configuration that the two frequencies determine.
    pub open spec fn derived(clock_freq_hz: u32, tick_freq_hz: u32) -> ClockConfig {
        ClockConfig {
            clock_freq_hz,
            tick_freq_hz,
            reload: (clock_freq_hz as int / tick_freq_hz as int - 1) as u32,
        }
    }

    /// A configuration is well formed when it is the one its own frequencies determine.
    pub open spec fn wf(self) -> bool {
        &&& Self::derivable(self.clock_freq_hz, self.tick_freq_hz)
        &&& self == Self::derived(self.clock_freq_hz, self.tick_freq_hz)
    }

    /// Number of clock cycles in one tick.
    pub open spec fn period(self) -> int {
        self.reload + 1
    }

    /// Derives the configuration for a clock of `clock_freq_hz` and ticks of `tick_freq_hz`.
    ///
    /// Returns `None` exactly when no reload value exists: a frequency is zero, the ticks
    /// are faster than the clock, or a tick is longer than the reload register can count.
    pub fn new(clock_freq_hz: u32, tick_freq_hz: u32) -> (config: Option<ClockConfig>)
        ensures
            config == if Self::derivable(clock_freq_hz, tick_freq_hz) {
                Some(Self::derived(clock_freq_hz, tick_freq_hz))
            } else {
                None
            },
    {
        if clock_freq_hz == 0 || tick_freq_hz == 0 {
            return None;
        }
        let cycles_per_tick: u32 = clock_freq_hz / tick_freq_hz;
        if cycles_per_tick == 0 || cycles_per_tick - 1 > RELOAD_MAX {
            return None;
        }
        Some(ClockConfig { clock_freq_hz, tick_freq_hz, reload: cycles_per_tick - 1 })
    }
}

} // verus!
