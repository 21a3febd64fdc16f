//! Driver for TSIC-family temperature sensors speaking the ZACWire
//! single-wire protocol.
//!
//! The sensor transmits each reading as two nine-bit packets (eight data
//! bits plus an even-parity bit) over one self-clocking signal line. The
//! driver measures the strobe pulse at the start of each packet, samples
//! every following bit one strobe after its falling edge, validates
//! parity, and combines the two bytes into a sixteen-bit raw reading.
//! Optionally it also sequences the sensor's supply pin, powering the
//! sensor down on every exit path so a retry never meets a transmission
//! already in progress.
//!
//! The driver is generic over three narrow capabilities — reading the
//! signal level, driving the supply level, and a microsecond busy-wait —
//! so it binds to any hardware back end that implements them.

pub mod error;
pub mod packet;
pub mod sensor;
pub mod temperature;
pub mod wire;

pub use error::TsicError;
pub use packet::Packet;
pub use sensor::{DummyOutputPin, SensorType, Tsic};
pub use sensor::{MAX_LEVEL_POLLS, STROBE_SAMPLING_RATE_US, VDD_POWER_UP_DELAY_US};
pub use temperature::Temperature;
pub use wire::{Delay, SignalLevel, SignalPin, SupplyPin};
