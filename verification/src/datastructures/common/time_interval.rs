use vstd::prelude::*;

use fixed::types::I48F16;

use crate::datastructures::{
    wire::{be_i64, get_u64, i64_at, lemma_i64_roundtrip, put_u64, splice},
    WireFormatError,
};

verus! {

#[verifier::external_type_specification]
#[verifier::external_body]
#[verifier::reject_recursive_types(Frac)]
pub struct ExFixedI64<Frac>(fixed::FixedI64<Frac>);

#[verifier::external_type_specification]
#[verifier::external_body]
#[verifier::reject_recursive_types(U)]
#[verifier::reject_recursive_types(B)]
pub struct ExUInt<U, B>(typenum::UInt<U, B>);

#[verifier::external_type_specification]
#[verifier::external_body]
pub struct ExUTerm(typenum::UTerm);

#[verifier::external_type_specification]
#[verifier::external_body]
pub struct ExB0(typenum::B0);

#[verifier::external_type_specification]
#[verifier::external_body]
pub struct ExB1(typenum::B1);

/// The fixed-point number that `I48F16::from_bits` makes of the 64 bits
/// `bits`: the number `bits / 2^16`.
pub uninterp spec fn i48f16_of_bits(bits: i64) -> I48F16;

/// Calls `I48F16::from_bits`, which makes the number whose bit
/// representation is `bits`. The contract names the result by its argument.
#[verifier::external_body]
fn i48f16_from_bits(bits: i64) -> (r: I48F16)
    ensures
        r == i48f16_of_bits(bits),
{
    I48F16::from_bits(bits)
}

/// Calls `I48F16::to_bits`, which gives the bits that represent `x`: the
/// bits that `from_bits` turns into `x`, and the only such bits, since
/// `from_bits` keeps the bits it is given as they are.
#[verifier::external_body]
fn i48f16_to_bits(x: I48F16) -> (r: i64)
    ensures
        i48f16_of_bits(r) == x,
        forall|b: i64| i48f16_of_bits(b) == x ==> b == r,
{
    x.to_bits()
}

/// Represents time intervals in nanoseconds, as a fixed-point number with
/// 16 fractional bits.
#[derive(Debug, Clone, Copy, PartialEq, Eq, Default)]
pub struct TimeInterval(pub I48F16);

impl TimeInterval {
    /// The 64 bits that represent the interval.
    pub open spec fn bits(self) -> i64 {
        choose|b: i64| i48f16_of_bits(b) == self.0
    }

    /// The interval stored at `at` in `b`.
    pub open spec fn from_wire(b: Seq<u8>, at: int) -> Self {
        TimeInterval(i48f16_of_bits(i64_at(b, at)))
    }

    /// The 64 bits that represent the interval.
    pub fn to_bits(&self) -> (r: i64)
        ensures
            r == self.bits(),
            i48f16_of_bits(r) == self.0,
            forall|b: i64| i48f16_of_bits(b) == self.0 ==> b == r,
    {
        i48f16_to_bits(self.0)
    }

    /// The interval represented by `bits`: `bits / 2^16` nanoseconds.
    pub fn from_bits(bits: i64) -> (r: Self)
        ensures
            r == TimeInterval(i48f16_of_bits(bits)),
            r.bits() == bits,
    {
        let r = TimeInterval(i48f16_from_bits(bits));
        let b = r.to_bits();
        assert(b == bits);
        r
    }

    /// The byte size on the wire of an interval.
    pub fn wire_size(&self) -> (r: usize)
        ensures
            r == 8,
    {
        8
    }

    /// Serializes the interval into the first eight bytes of the buffer: its
    /// bits, big-endian. Reading back those bytes gives the interval.
    pub fn serialize(&self, buffer: &mut [u8]) -> (r: Result<(), WireFormatError>)
        requires
            old(buffer).len() >= 8,
        ensures
            r is Ok,
            final(buffer)@ == splice(old(buffer)@, 0, be_i64(self.bits())),
            Self::from_wire(final(buffer)@, 0) == *self,
    {
        let bits = i48f16_to_bits(self.0);
        put_u64(buffer, 0, bits as u64);
        proof {
            assert(i48f16_of_bits(self.bits()) == self.0);
            assert(self.bits() == bits);
            assert(buffer@.subrange(0, 8) =~= be_i64(bits));
            lemma_i64_roundtrip(bits, buffer@, 0);
        }
        Ok(())
    }

    /// Deserializes an interval from the first eight bytes of the buffer.
    pub fn deserialize(buffer: &[u8]) -> (r: Result<Self, WireFormatError>)
        requires
            buffer.len() >= 8,
        ensures
            r == Ok::<Self, WireFormatError>(Self::from_wire(buffer@, 0)),
    {
        let bits = get_u64(buffer, 0) as i64;
        Ok(TimeInterval(i48f16_from_bits(bits)))
    }
}

/// The interval of zero nanoseconds.
pub fn zero_time_interval() -> (r: TimeInterval)
    ensures
        r == TimeInterval(i48f16_of_bits(0)),
        r.bits() == 0,
{
    let r = TimeInterval(i48f16_from_bits(0));
    let bits = r.to_bits();
    assert(i48f16_of_bits(0) == r.0);
    r
}

} // verus!
