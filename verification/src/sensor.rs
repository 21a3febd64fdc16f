use vstd::arithmetic::power2::{lemma2_to64, lemma_pow2_strictly_increases, pow2};
use vstd::prelude::*;

use crate::error::TsicError;
use crate::packet::Packet;
use crate::temperature::Temperature;
use crate::wire::{Delay, SignalLevel, SignalPin, SupplyPin};

verus! {

/// The ZACWire specification recommends sampling the strobe pulse at
/// 128 kHz, which is one sample every 7.8 microseconds. Since the delay
/// capability only waits whole microseconds, 8 microseconds is the
/// closest usable increment.
pub const STROBE_SAMPLING_RATE_US: u8 = 8;

/// After the supply pin is driven high, the sensor's output needs a
/// stabilization delay before the first edge can be trusted.
pub const VDD_POWER_UP_DELAY_US: u8 = 50;

/// How many times an edge wait polls the signal line before giving up
/// with [`TsicError::SignalLineStuck`]. A bit window is on the order of
/// 125 microseconds, so this budget is generous by several orders of
/// magnitude and only ever runs out on a line that is truly stuck.
pub const MAX_LEVEL_POLLS: u32 = 10_000_000;

/// Refers to the sensor type that is used.
///
/// It does not matter whether the SOP-8 or the TO92 package is used, as
/// long as the type is correct and the pins are correctly assigned.
#[derive(Clone, Copy, Debug, PartialEq, Eq, Structural)]
pub enum SensorType {
    /// The TSic 306 sensor.
    Tsic306,
}

/// A supply-pin stand-in for sessions that leave power to the caller:
/// setting its level always succeeds and drives nothing.
pub struct DummyOutputPin;

impl SupplyPin for DummyOutputPin {
    fn set_level(&mut self, level: SignalLevel) -> (r: Result<(), ()>)
        ensures
            r is Ok,
    {
        Ok(())
    }
}

/// A session with one TSIC sensor: the sole owner of the signal pin
/// and, when power is managed, of the supply pin.
///
/// Three ghost counters record the power-sequencing events of the
/// session, so the contracts can pin down when the supply pin is
/// driven and when the stabilization delay is taken.
pub struct Tsic<I: SignalPin, O: SupplyPin> {
    /// Right now the sensor type is unused since only one is supported,
    /// but it keeps the interface forward compatible.
    _sensor_type: SensorType,
    signal_pin: I,
    vdd_pin: Option<O>,
    power_up_count: Ghost<int>,
    power_down_count: Ghost<int>,
    stab_delay_count: Ghost<int>,
}

impl<I: SignalPin> Tsic<I, DummyOutputPin> {
    /// Constructs a `Tsic` without control over the supply (VDD) pin.
    ///
    /// Use this constructor to manage the power of the sensor
    /// externally, or to keep it on a permanent voltage connection;
    /// only the signal pin of the sensor is owned by the session. Since
    /// an unmanaged sensor may be mid-transmission when a read starts,
    /// consider retrying on transient failures.
    pub fn without_vdd_control(sensor_type: SensorType, signal_pin: I) -> (r: Self)
        ensures
            !r.manages_power(),
            r.power_ups() == 0,
            r.power_downs() == 0,
            r.stab_delays() == 0,
    {
        Tsic {
            _sensor_type: sensor_type,
            signal_pin,
            vdd_pin: None,
            power_up_count: Ghost(0),
            power_down_count: Ghost(0),
            stab_delay_count: Ghost(0),
        }
    }
}

impl<I: SignalPin, O: SupplyPin> Tsic<I, O> {
    /// Whether this session manages the sensor's supply pin.
    pub closed spec fn manages_power(&self) -> bool {
        self.vdd_pin is Some
    }

    /// How many times this session has attempted to drive the supply
    /// pin high.
    pub closed spec fn power_ups(&self) -> int {
        self.power_up_count@
    }

    /// How many times this session has attempted to drive the supply
    /// pin low.
    pub closed spec fn power_downs(&self) -> int {
        self.power_down_count@
    }

    /// How many times this session has taken the power-up stabilization
    /// delay.
    pub closed spec fn stab_delays(&self) -> int {
        self.stab_delay_count@
    }

    /// The power bookkeeping of `self` and `other` agree: work on the
    /// signal line alone never touches the supply pin.
    pub open spec fn same_power_state(&self, other: &Self) -> bool {
        &&& self.manages_power() == other.manages_power()
        &&& self.power_ups() == other.power_ups()
        &&& self.power_downs() == other.power_downs()
        &&& self.stab_delays() == other.stab_delays()
    }

    /// Constructs a `Tsic` with control over the supply (VDD) pin.
    ///
    /// The session then powers the sensor up before each read and back
    /// down on every exit path. This saves power and keeps readings
    /// consistent: a read can never meet a transmission already in
    /// progress.
    pub fn with_vdd_control(sensor_type: SensorType, signal_pin: I, vdd_pin: O) -> (r: Self)
        ensures
            r.manages_power(),
            r.power_ups() == 0,
            r.power_downs() == 0,
            r.stab_delays() == 0,
    {
        Tsic {
            _sensor_type: sensor_type,
            signal_pin,
            vdd_pin: Some(vdd_pin),
            power_up_count: Ghost(0),
            power_down_count: Ghost(0),
            stab_delay_count: Ghost(0),
        }
    }

    /// Attempts one full reading: power up, first packet, second
    /// packet, power down, combine.
    ///
    /// Any failure while powering up or reading a packet triggers an
    /// immediate best-effort power-down — whose own failure is
    /// suppressed so the original error is surfaced — and the second
    /// packet is never read when the first has failed. A power-down
    /// failure at the end of an otherwise successful read is surfaced,
    /// since the caller must know the sensor may remain powered.
    ///
    /// Whenever this session manages the supply pin, one read attempts
    /// the power-down exactly once; without a managed supply pin, no
    /// power sequencing happens at all and no write error can occur.
    pub fn read<D: Delay>(&mut self, delay: &mut D) -> (r: Result<Temperature, TsicError>)
        ensures
            final(self).manages_power() == old(self).manages_power(),
            old(self).manages_power() ==> final(self).power_ups() == old(self).power_ups() + 1,
            old(self).manages_power() ==> final(self).power_downs() == old(self).power_downs()
                + 1,
            final(self).stab_delays() <= old(self).stab_delays() + 1,
            r is Ok && old(self).manages_power() ==> final(self).stab_delays() == old(
                self,
            ).stab_delays() + 1,
            !old(self).manages_power() ==> final(self).same_power_state(old(self)),
            !old(self).manages_power() && r is Err ==> r->Err_0 == TsicError::ParityCheckFailed
                || r->Err_0 == TsicError::PinReadError || r->Err_0 == TsicError::SignalLineStuck,
    {
        match self.maybe_power_up_sensor(delay) {
            Ok(()) => {}
            Err(err) => {
                let _ = self.maybe_power_down_sensor();
                return Err(err);
            }
        }

        let first_packet = match self.read_packet(delay) {
            Ok(packet) => packet,
            Err(err) => {
                let _ = self.maybe_power_down_sensor();
                return Err(err);
            }
        };

        let second_packet = match self.read_packet(delay) {
            Ok(packet) => packet,
            Err(err) => {
                let _ = self.maybe_power_down_sensor();
                return Err(err);
            }
        };

        match self.maybe_power_down_sensor() {
            Ok(()) => {}
            Err(err) => {
                return Err(err);
            }
        }

        Ok(Temperature::new(first_packet, second_packet))
    }

    /// Handles supply-pin power up if a supply pin was given at
    /// construction: drives it high, then waits the stabilization delay
    /// so the first sampled edge can be trusted. Without a managed
    /// supply pin this is a no-op that cannot fail and takes no delay.
    fn maybe_power_up_sensor<D: Delay>(&mut self, delay: &mut D) -> (r: Result<(), TsicError>)
        ensures
            final(self).manages_power() == old(self).manages_power(),
            final(self).power_downs() == old(self).power_downs(),
            !old(self).manages_power() ==> r is Ok && final(self).same_power_state(old(self)),
            old(self).manages_power() ==> final(self).power_ups() == old(self).power_ups() + 1,
            r is Ok && old(self).manages_power() ==> final(self).stab_delays() == old(
                self,
            ).stab_delays() + 1,
            r is Err ==> r->Err_0 == TsicError::PinWriteError && old(self).manages_power()
                && final(self).stab_delays() == old(self).stab_delays(),
    {
        let write_result: Result<(), ()> = match &mut self.vdd_pin {
            Some(pin) => pin.set_level(SignalLevel::High),
            None => {
                return Ok(());
            },
        };
        self.power_up_count = Ghost(self.power_up_count@ + 1);
        match write_result {
            Ok(()) => {
                self.stab_delay_count = Ghost(self.stab_delay_count@ + 1);
                delay.wait_us(VDD_POWER_UP_DELAY_US);
                Ok(())
            }
            Err(_) => Err(TsicError::PinWriteError),
        }
    }

    /// Handles supply-pin power down if a supply pin was given at
    /// construction, so the sensor is never left mid-transmission for a
    /// retry. Without a managed supply pin this is a no-op that cannot
    /// fail.
    fn maybe_power_down_sensor(&mut self) -> (r: Result<(), TsicError>)
        ensures
            final(self).manages_power() == old(self).manages_power(),
            final(self).power_ups() == old(self).power_ups(),
            final(self).stab_delays() == old(self).stab_delays(),
            !old(self).manages_power() ==> r is Ok && final(self).same_power_state(old(self)),
            old(self).manages_power() ==> final(self).power_downs() == old(self).power_downs()
                + 1,
            r is Err ==> r->Err_0 == TsicError::PinWriteError && old(self).manages_power(),
    {
        let write_result: Result<(), ()> = match &mut self.vdd_pin {
            Some(pin) => pin.set_level(SignalLevel::Low),
            None => {
                return Ok(());
            },
        };
        self.power_down_count = Ghost(self.power_down_count@ + 1);
        match write_result {
            Ok(()) => Ok(()),
            Err(_) => Err(TsicError::PinWriteError),
        }
    }

    /// Acquires one nine-bit packet off the signal line, most
    /// significant bit first, per the ZACWire protocol.
    ///
    /// The falling edge of the start bit opens the packet; the time
    /// until its rising edge is the strobe time. Every following bit
    /// starts with a falling edge, is sampled one strobe time later,
    /// and ends when the line returns high. Because each bit starts
    /// with its own falling edge, the sampling window is reset with
    /// every bit and timing errors do not accrue downstream.
    fn read_packet<D: Delay>(&mut self, delay: &mut D) -> (r: Result<Packet, TsicError>)
        ensures
            final(self).same_power_state(old(self)),
            r is Ok ==> r->Ok_0.wf(),
            r is Err ==> r->Err_0 == TsicError::ParityCheckFailed || r->Err_0
                == TsicError::PinReadError || r->Err_0 == TsicError::SignalLineStuck,
    {
        match self.wait_until_low() {
            Ok(()) => {}
            Err(err) => {
                return Err(err);
            }
        }

        let strobe_len: u8 = match self.strobe_len(delay) {
            Ok(len) => len,
            Err(err) => {
                return Err(err);
            },
        };

        let ghost entry = *self;
        proof {
            lemma2_to64();
        }
        let mut packet_bits: u16 = 0;
        let mut bit: usize = 0;
        while bit < 9
            invariant
                bit <= 9,
                packet_bits < pow2(bit as nat),
                self.same_power_state(&entry),
                entry.same_power_state(old(self)),
            decreases 9 - bit,
        {
            proof {
                lemma2_to64();
                if bit < 8 {
                    lemma_pow2_strictly_increases(bit as nat, 8);
                }
            }

            match self.wait_until_low() {
                Ok(()) => {}
                Err(err) => {
                    return Err(err);
                }
            }

            delay.wait_us(strobe_len);

            packet_bits = packet_bits * 2;
            match self.is_high() {
                Ok(true) => {
                    packet_bits = packet_bits + 1;
                }
                Ok(false) => {}
                Err(err) => {
                    return Err(err);
                }
            }

            match self.wait_until_high() {
                Ok(()) => {}
                Err(err) => {
                    return Err(err);
                }
            }

            bit = bit + 1;
        }

        proof {
            lemma2_to64();
        }
        Packet::new(packet_bits)
    }

    /// Measures the strobe pulse of the current packet: while the line
    /// stays low, accumulates the sampling increment and busy-waits it.
    ///
    /// The sensor's strobe length varies with temperature, so it is
    /// measured afresh before every packet; it is usually around 60
    /// microseconds. The accumulated count wraps at the width of the
    /// delay argument.
    fn strobe_len<D: Delay>(&mut self, delay: &mut D) -> (r: Result<u8, TsicError>)
        ensures
            final(self).same_power_state(old(self)),
            r is Ok ==> r->Ok_0 % STROBE_SAMPLING_RATE_US == 0,
            r is Err ==> r->Err_0 == TsicError::PinReadError || r->Err_0
                == TsicError::SignalLineStuck,
    {
        let ghost entry = *self;
        let mut strobe_len: u8 = 0;
        let mut polls: u32 = 0;
        while polls < MAX_LEVEL_POLLS
            invariant
                strobe_len % STROBE_SAMPLING_RATE_US == 0,
                self.same_power_state(&entry),
                entry.same_power_state(old(self)),
            decreases MAX_LEVEL_POLLS - polls,
        {
            match self.is_low() {
                Ok(true) => {
                    strobe_len = if strobe_len <= 247 {
                        strobe_len + STROBE_SAMPLING_RATE_US
                    } else {
                        strobe_len - 248
                    };
                    delay.wait_us(STROBE_SAMPLING_RATE_US);
                }
                Ok(false) => {
                    return Ok(strobe_len);
                }
                Err(err) => {
                    return Err(err);
                }
            }
            polls = polls + 1;
        }
        Err(TsicError::SignalLineStuck)
    }

    /// Checks whether the signal pin is currently in a high state.
    fn is_high(&mut self) -> (r: Result<bool, TsicError>)
        ensures
            final(self).same_power_state(old(self)),
            r is Err ==> r->Err_0 == TsicError::PinReadError,
    {
        match self.signal_pin.read_level() {
            Ok(SignalLevel::High) => Ok(true),
            Ok(SignalLevel::Low) => Ok(false),
            Err(_) => Err(TsicError::PinReadError),
        }
    }

    /// Checks whether the signal pin is currently in a low state.
    fn is_low(&mut self) -> (r: Result<bool, TsicError>)
        ensures
            final(self).same_power_state(old(self)),
            r is Err ==> r->Err_0 == TsicError::PinReadError,
    {
        match self.signal_pin.read_level() {
            Ok(SignalLevel::Low) => Ok(true),
            Ok(SignalLevel::High) => Ok(false),
            Err(_) => Err(TsicError::PinReadError),
        }
    }

    /// Returns only once the pin has been observed in a low state, or
    /// fails once the poll budget runs out on a line stuck high.
    fn wait_until_low(&mut self) -> (r: Result<(), TsicError>)
        ensures
            final(self).same_power_state(old(self)),
            r is Err ==> r->Err_0 == TsicError::PinReadError || r->Err_0
                == TsicError::SignalLineStuck,
    {
        let ghost entry = *self;
        let mut polls: u32 = 0;
        while polls < MAX_LEVEL_POLLS
            invariant
                self.same_power_state(&entry),
                entry.same_power_state(old(self)),
            decreases MAX_LEVEL_POLLS - polls,
        {
            match self.is_high() {
                Ok(true) => {}
                Ok(false) => {
                    return Ok(());
                }
                Err(err) => {
                    return Err(err);
                }
            }
            polls = polls + 1;
        }
        Err(TsicError::SignalLineStuck)
    }

    /// Returns only once the pin has been observed in a high state, or
    /// fails once the poll budget runs out on a line stuck low.
    fn wait_until_high(&mut self) -> (r: Result<(), TsicError>)
        ensures
            final(self).same_power_state(old(self)),
            r is Err ==> r->Err_0 == TsicError::PinReadError || r->Err_0
                == TsicError::SignalLineStuck,
    {
        let ghost entry = *self;
        let mut polls: u32 = 0;
        while polls < MAX_LEVEL_POLLS
            invariant
                self.same_power_state(&entry),
                entry.same_power_state(old(self)),
            decreases MAX_LEVEL_POLLS - polls,
        {
            match self.is_low() {
                Ok(true) => {}
                Ok(false) => {
                    return Ok(());
                }
                Err(err) => {
                    return Err(err);
                }
            }
            polls = polls + 1;
        }
        Err(TsicError::SignalLineStuck)
    }
}

} // verus!
