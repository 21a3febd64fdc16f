use std::cell::RefCell;
use std::rc::Rc;

use tsic::{Delay, SensorType, SignalLevel, SignalPin, SupplyPin, Tsic, TsicError};

/// A signal pin that replays a recorded level sequence, one level per
/// poll, and fails once the recording is exhausted — so a test also
/// proves that the driver sampled exactly as many times as expected.
struct ScriptPin {
    levels: Vec<SignalLevel>,
    pos: Rc<RefCell<usize>>,
}

impl SignalPin for ScriptPin {
    fn read_level(&mut self) -> Result<SignalLevel, ()> {
        let mut pos = self.pos.borrow_mut();
        if *pos < self.levels.len() {
            let level = self.levels[*pos];
            *pos += 1;
            Ok(level)
        } else {
            Err(())
        }
    }
}

/// A signal line frozen at the high level.
struct StuckHighPin;

impl SignalPin for StuckHighPin {
    fn read_level(&mut self) -> Result<SignalLevel, ()> {
        Ok(SignalLevel::High)
    }
}

/// A supply pin that records every requested level and can be told to
/// fail on writes of a given level.
struct RecordingSupplyPin {
    events: Rc<RefCell<Vec<SignalLevel>>>,
    fail_high: bool,
    fail_low: bool,
}

impl SupplyPin for RecordingSupplyPin {
    fn set_level(&mut self, level: SignalLevel) -> Result<(), ()> {
        self.events.borrow_mut().push(level);
        match level {
            SignalLevel::High if self.fail_high => Err(()),
            SignalLevel::Low if self.fail_low => Err(()),
            _ => Ok(()),
        }
    }
}

/// A delay that only records how many microseconds were requested.
struct RecordingDelay {
    waits: Rc<RefCell<Vec<u8>>>,
}

impl Delay for RecordingDelay {
    fn wait_us(&mut self, us: u8) {
        self.waits.borrow_mut().push(us);
    }
}

/// Encodes a data byte as the nine wire bits with a correct even-parity
/// bit in the least significant position.
fn encode_byte(byte: u8) -> u16 {
    ((byte as u16) << 1) | (byte.count_ones() as u16 % 2)
}

/// Appends one packet transmission to a level script: the start bit's
/// falling edge, a strobe pulse seven polls long, then one window per
/// bit (falling edge, sampled level, line back high), MSB first.
fn push_packet(script: &mut Vec<SignalLevel>, bits: u16) {
    script.push(SignalLevel::High);
    script.push(SignalLevel::Low);
    for _ in 0..7 {
        script.push(SignalLevel::Low);
    }
    script.push(SignalLevel::High);
    for i in (0..9).rev() {
        script.push(SignalLevel::Low);
        script.push(if (bits >> i) & 1 == 1 { SignalLevel::High } else { SignalLevel::Low });
        script.push(SignalLevel::High);
    }
}

/// The delays one packet acquisition takes with the scripts above:
/// seven strobe-sampling waits, then one strobe-long wait per bit.
fn packet_delays() -> Vec<u8> {
    let mut waits = vec![8u8; 7];
    waits.extend(vec![56u8; 9]);
    waits
}

struct Harness {
    script: Vec<SignalLevel>,
    pos: Rc<RefCell<usize>>,
    events: Rc<RefCell<Vec<SignalLevel>>>,
    waits: Rc<RefCell<Vec<u8>>>,
}

impl Harness {
    fn new(script: Vec<SignalLevel>) -> Harness {
        Harness {
            script,
            pos: Rc::new(RefCell::new(0)),
            events: Rc::new(RefCell::new(Vec::new())),
            waits: Rc::new(RefCell::new(Vec::new())),
        }
    }

    fn signal_pin(&self) -> ScriptPin {
        ScriptPin { levels: self.script.clone(), pos: Rc::clone(&self.pos) }
    }

    fn supply_pin(&self, fail_high: bool, fail_low: bool) -> RecordingSupplyPin {
        RecordingSupplyPin { events: Rc::clone(&self.events), fail_high, fail_low }
    }

    fn delay(&self) -> RecordingDelay {
        RecordingDelay { waits: Rc::clone(&self.waits) }
    }

    fn script_consumed(&self) -> bool {
        *self.pos.borrow() == self.script.len()
    }
}

#[test]
fn read_full_transmission_yields_exact_temperature() {
    let mut script = Vec::new();
    push_packet(&mut script, encode_byte(0x19));
    push_packet(&mut script, encode_byte(0x33));
    let h = Harness::new(script);

    let mut sensor =
        Tsic::with_vdd_control(SensorType::Tsic306, h.signal_pin(), h.supply_pin(false, false));
    let mut delay = h.delay();

    let temperature = sensor.read(&mut delay).expect("a clean transmission must decode");
    assert_eq!(temperature.raw_value(), 0x1933);
    assert_eq!(temperature.celsius_milli(), 580_288);

    // Power sequencing: up once, down once, nothing else.
    assert_eq!(*h.events.borrow(), vec![SignalLevel::High, SignalLevel::Low]);
    // Stabilization delay first, then per packet the strobe sampling
    // and the nine bit-sampling waits.
    let mut expected_waits = vec![50u8];
    expected_waits.extend(packet_delays());
    expected_waits.extend(packet_delays());
    assert_eq!(*h.waits.borrow(), expected_waits);
    assert!(h.script_consumed());
}

#[test]
fn flipped_parity_bit_fails_and_powers_down_once() {
    let mut script = Vec::new();
    // The parity bit of the first packet is flipped; the script holds
    // nothing beyond that packet, so any further sample would surface
    // a pin read error instead of the parity error.
    push_packet(&mut script, encode_byte(0x19) ^ 1);
    let h = Harness::new(script);

    let mut sensor =
        Tsic::with_vdd_control(SensorType::Tsic306, h.signal_pin(), h.supply_pin(false, false));
    let mut delay = h.delay();

    match sensor.read(&mut delay) {
        Ok(_) => panic!("a flipped parity bit must be rejected"),
        Err(err) => assert!(matches!(err, TsicError::ParityCheckFailed)),
    }
    // The second packet was never sampled...
    assert!(h.script_consumed());
    // ...and the sensor was powered down exactly once.
    assert_eq!(*h.events.borrow(), vec![SignalLevel::High, SignalLevel::Low]);
}

#[test]
fn unmanaged_session_skips_power_sequencing() {
    let mut script = Vec::new();
    push_packet(&mut script, encode_byte(0xab));
    push_packet(&mut script, encode_byte(0xcd));
    let h = Harness::new(script);

    let mut sensor = Tsic::without_vdd_control(SensorType::Tsic306, h.signal_pin());
    let mut delay = h.delay();

    let temperature = sensor.read(&mut delay).expect("a clean transmission must decode");
    assert_eq!(temperature.raw_value(), 0xabcd);

    // No stabilization delay: the very first wait is already a strobe
    // sample, and the waits are exactly the two packets' worth.
    let mut expected_waits = packet_delays();
    expected_waits.extend(packet_delays());
    assert_eq!(*h.waits.borrow(), expected_waits);
    assert!(h.script_consumed());
}

#[test]
fn power_up_failure_aborts_read_before_any_sampling() {
    let mut script = Vec::new();
    push_packet(&mut script, encode_byte(0x19));
    push_packet(&mut script, encode_byte(0x33));
    let h = Harness::new(script);

    let mut sensor =
        Tsic::with_vdd_control(SensorType::Tsic306, h.signal_pin(), h.supply_pin(true, false));
    let mut delay = h.delay();

    match sensor.read(&mut delay) {
        Ok(_) => panic!("a failed power-up must abort the read"),
        Err(err) => assert!(matches!(err, TsicError::PinWriteError)),
    }
    // The signal line was never sampled and no delay was taken.
    assert_eq!(*h.pos.borrow(), 0);
    assert!(h.waits.borrow().is_empty());
    // Power-down is still attempted, best-effort.
    assert_eq!(*h.events.borrow(), vec![SignalLevel::High, SignalLevel::Low]);
}

#[test]
fn power_down_failure_after_successful_read_is_surfaced() {
    let mut script = Vec::new();
    push_packet(&mut script, encode_byte(0x19));
    push_packet(&mut script, encode_byte(0x33));
    let h = Harness::new(script);

    let mut sensor =
        Tsic::with_vdd_control(SensorType::Tsic306, h.signal_pin(), h.supply_pin(false, true));
    let mut delay = h.delay();

    match sensor.read(&mut delay) {
        Ok(_) => panic!("the caller must learn that the sensor may remain powered"),
        Err(err) => assert!(matches!(err, TsicError::PinWriteError)),
    }
    assert!(h.script_consumed());
    assert_eq!(*h.events.borrow(), vec![SignalLevel::High, SignalLevel::Low]);
}

#[test]
fn stuck_line_reports_stuck_error() {
    let mut sensor = Tsic::without_vdd_control(SensorType::Tsic306, StuckHighPin);
    let h = Harness::new(Vec::new());
    let mut delay = h.delay();

    match sensor.read(&mut delay) {
        Ok(_) => panic!("a line stuck high can never produce a packet"),
        Err(err) => assert!(matches!(err, TsicError::SignalLineStuck)),
    }
}

#[test]
fn signal_pin_failure_reports_read_error_and_powers_down_once() {
    let h = Harness::new(Vec::new());

    let mut sensor =
        Tsic::with_vdd_control(SensorType::Tsic306, h.signal_pin(), h.supply_pin(false, false));
    let mut delay = h.delay();

    match sensor.read(&mut delay) {
        Ok(_) => panic!("a failing signal pin must abort the read"),
        Err(err) => assert!(matches!(err, TsicError::PinReadError)),
    }
    assert_eq!(*h.events.borrow(), vec![SignalLevel::High, SignalLevel::Low]);
}
