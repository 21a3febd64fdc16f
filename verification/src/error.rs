use vstd::prelude::*;

verus! {

/// Everything that can go wrong during a reading from the sensor.
#[derive(Clone, Copy, Debug, PartialEq, Eq, Structural)]
pub enum TsicError {
    /// The even-parity check on a sampled nine-bit packet failed.
    ///
    /// This is often a transient condition (noise, a sampling glitch,
    /// an overlapping transmission), so a fresh read may succeed.
    ParityCheckFailed,

    /// Reading the high/low state of the signal pin failed at the
    /// platform layer.
    PinReadError,

    /// Setting the high/low state of the supply (VDD) pin failed at the
    /// platform layer.
    PinWriteError,

    /// The signal line did not produce the awaited edge within the poll
    /// budget: the line is stuck, or no sensor is transmitting.
    SignalLineStuck,
}

} // verus!
