use vstd::prelude::*;

use crate::error::TsicError;

verus! {

/// Number of set bits in the binary representation of `x`.
pub open spec fn popcount(x: nat) -> nat
    decreases x,
{
    if x == 0 {
        0
    } else {
        (x % 2) + popcount(x / 2)
    }
}

/// A value has even parity when its number of set bits is even.
pub open spec fn spec_even_parity(raw: u16) -> bool {
    popcount(raw as nat) % 2 == 0
}

/// The number of set bits never exceeds the value itself.
proof fn lemma_popcount_le(x: nat)
    ensures
        popcount(x) <= x,
    decreases x,
{
    if x != 0 {
        lemma_popcount_le(x / 2);
    }
}

/// One half of a temperature reading: nine bits sampled off the wire,
/// the least significant being the even-parity bit that protects the
/// other eight.
pub struct Packet {
    raw_bits: u16,
}

impl Packet {
    /// The nine raw bits this packet was validated from.
    pub closed spec fn raw_bits_spec(&self) -> u16 {
        self.raw_bits
    }

    /// The eight data bits, with the parity bit stripped.
    pub open spec fn value_spec(&self) -> u16 {
        self.raw_bits_spec() >> 1
    }

    /// A packet is well formed when its raw bits fit in nine bits and
    /// carry even parity.
    pub open spec fn wf(&self) -> bool {
        self.raw_bits_spec() < 512 && spec_even_parity(self.raw_bits_spec())
    }

    /// Validates nine raw bits: accepted exactly when the number of set
    /// bits is even; the packet then carries those bits unchanged.
    pub fn new(raw_bits: u16) -> (r: Result<Packet, TsicError>)
        requires
            raw_bits < 512,
        ensures
            r is Ok <==> spec_even_parity(raw_bits),
            r is Ok ==> r->Ok_0.raw_bits_spec() == raw_bits && r->Ok_0.wf(),
            r is Err ==> r->Err_0 == TsicError::ParityCheckFailed,
    {
        if Self::has_even_parity(raw_bits) {
            Ok(Packet { raw_bits })
        } else {
            Err(TsicError::ParityCheckFailed)
        }
    }

    /// The data byte carried by this packet: the raw bits shifted right
    /// once, discarding the parity bit.
    pub fn value(&self) -> (r: u16)
        ensures
            r == self.value_spec(),
    {
        self.raw_bits >> 1
    }

    /// Reports whether `raw` has an even number of set bits.
    pub fn has_even_parity(raw: u16) -> (r: bool)
        ensures
            r == spec_even_parity(raw),
    {
        let mut x: u16 = raw;
        let mut ones: u32 = 0;
        while x != 0
            invariant
                ones + popcount(x as nat) == popcount(raw as nat),
                ones <= 0xffff,
            decreases x,
        {
            proof {
                lemma_popcount_le(raw as nat);
            }
            ones = ones + (x % 2) as u32;
            x = x / 2;
        }
        ones % 2 == 0
    }
}

} // verus!
