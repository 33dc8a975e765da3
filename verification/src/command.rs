//! Commands: what an operation of the time base asks to have done to the counter.
//!
//! The time base never touches the counter's registers itself. Each operation says,
//! in the order that matters, which register accesses go with it, and whoever holds
//! the peripheral performs them before anything else happens to the time base.

use vstd::prelude::*;

verus! {

/// One access to the counter's registers.
#[derive(Clone, Copy, Debug, PartialEq, Eq, Structural)]
pub enum Command {
    /// Keep underflows from raising the interrupt.
    DisableInterrupt,
    /// Let the core clock drive the counter: the configured frequencies refer to it.
    UseCoreClock,
    /// Write the reload register.
    SetReload(u32),
    /// Write the current-value register, which sets it to zero.
    ClearCurrent,
    /// Let each underflow raise the interrupt.
    EnableInterrupt,
    /// Let the counter run.
    EnableCounter,
    /// Halt the counter where it stands.
    DisableCounter,
    /// Read the wrap condition and drop what was read, which clears it.
    ClearWrapped,
}

/// The accesses that set the counter up for a reload value, in the order in which they
/// are made: the interrupt is silenced first and let through again last, so that no
/// underflow is served while the registers are half written.
pub open spec fn init_sequence(reload: u32) -> Seq<Command> {
    seq![
        Command::DisableInterrupt,
        Command::UseCoreClock,
        Command::SetReload(reload),
        Command::ClearCurrent,
        Command::EnableInterrupt,
    ]
}

} // verus!
