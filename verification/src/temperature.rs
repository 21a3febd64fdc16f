use vstd::arithmetic::div_mod::{lemma_div_is_ordered, lemma_fundamental_div_mod, lemma_mod_bound};
use vstd::prelude::*;

use crate::packet::Packet;

verus! {

/// The sensor's linear transfer function, in thousandths of a degree
/// Celsius: raw × 200 / 2047 − 50 degrees, rounded down to the next
/// thousandth.
pub open spec fn spec_celsius_milli(raw: u16) -> int {
    raw * 200000 / 2047 - 50000
}

/// Represents a single temperature reading from the sensor: sixteen raw
/// bits, the first packet's byte on top, the second packet's byte below.
pub struct Temperature {
    raw: u16,
}

impl Temperature {
    /// The combined sixteen-bit raw reading.
    pub closed spec fn raw_spec(&self) -> u16 {
        self.raw
    }

    /// Creates a full temperature reading from the two individual half
    /// reading packets: the first is the high byte, the second the low
    /// byte.
    pub fn new(first: Packet, second: Packet) -> (r: Temperature)
        requires
            first.wf(),
            second.wf(),
        ensures
            r.raw_spec() == first.value_spec() * 256 + second.value_spec(),
    {
        let hi: u16 = first.value();
        let lo: u16 = second.value();
        proof {
            let rb1: u16 = first.raw_bits_spec();
            let rb2: u16 = second.raw_bits_spec();
            assert(rb1 >> 1 < 256 && rb2 >> 1 < 256) by (bit_vector)
                requires
                    rb1 < 512 && rb2 < 512,
            ;
            assert(((rb1 >> 1) << 8) | (rb2 >> 1) == (rb1 >> 1) * 256 + (rb2 >> 1))
                by (bit_vector)
                requires
                    rb1 < 512 && rb2 < 512,
            ;
        }
        Temperature { raw: (hi << 8) | lo }
    }

    /// The raw sixteen-bit sensor reading this temperature was built
    /// from.
    pub fn raw_value(&self) -> (r: u16)
        ensures
            r == self.raw_spec(),
    {
        self.raw
    }

    /// Returns the temperature in thousandths of a degree Celsius, by
    /// the sensor's transfer function raw × 200 / 2047 − 50 degrees.
    pub fn celsius_milli(&self) -> (r: i32)
        ensures
            r == spec_celsius_milli(self.raw_spec()),
    {
        let scaled: u64 = self.raw as u64 * 200000 / 2047;
        proof {
            lemma_div_is_ordered(self.raw as int * 200000, 13107000000, 2047);
        }
        (scaled as i32) - 50000
    }
}

/// The transfer function is monotonic: a larger raw reading never maps
/// to a smaller temperature.
pub proof fn lemma_celsius_monotonic(a: u16, b: u16)
    requires
        a <= b,
    ensures
        spec_celsius_milli(a) <= spec_celsius_milli(b),
{
    lemma_div_is_ordered(a * 200000, b * 200000, 2047);
}

/// The transfer function is linear in the raw value up to the rounding
/// of the final division: scaling a converted reading back up brackets
/// raw × 200000 within one divisor width.
pub proof fn lemma_celsius_linear(raw: u16)
    ensures
        2047 * (spec_celsius_milli(raw) + 50000) <= raw * 200000,
        raw * 200000 < 2047 * (spec_celsius_milli(raw) + 50000) + 2047,
{
    lemma_fundamental_div_mod(raw * 200000, 2047);
    lemma_mod_bound(raw * 200000, 2047);
}

/// The transfer function's documented endpoints: raw 0 reads exactly
/// −50 °C and raw 2047 reads exactly 150 °C.
pub proof fn lemma_celsius_endpoints()
    ensures
        spec_celsius_milli(0) == -50000,
        spec_celsius_milli(2047) == 150000,
{
    assert(2047 * 200000 == 409400000);
}

} // verus!
