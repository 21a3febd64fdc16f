use vstd::prelude::*;

verus! {

/// The two logic levels a pin can carry.
#[derive(Clone, Copy, Debug, PartialEq, Eq, Structural)]
pub enum SignalLevel {
    /// The line is at the low logic level.
    Low,
    /// The line is at the high logic level.
    High,
}

/// Capability to read the current logic level of the sensor's signal
/// line.
///
/// An `Err(())` reports that the platform layer failed to read the pin;
/// the driver surfaces it as [`crate::TsicError::PinReadError`].
pub trait SignalPin {
    /// Samples the line and returns its level right now.
    fn read_level(&mut self) -> Result<SignalLevel, ()>;
}

/// Capability to drive the sensor's supply (VDD) line.
///
/// An `Err(())` reports that the platform layer failed to change the
/// pin; the driver surfaces it as [`crate::TsicError::PinWriteError`].
pub trait SupplyPin {
    /// Drives the line to the given level.
    fn set_level(&mut self, level: SignalLevel) -> Result<(), ()>;
}

/// Capability to block the calling thread for at least — not
/// necessarily exactly — the given number of microseconds. Assumed
/// infallible.
pub trait Delay {
    /// Busy-waits for at least `us` microseconds.
    fn wait_us(&mut self, us: u8);
}

} // verus!
