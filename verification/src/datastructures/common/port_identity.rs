use vstd::prelude::*;

use super::ClockIdentity;
use crate::datastructures::{
    wire::{be_u16, get_u16, lemma_part, lemma_splice_twice, lemma_u16_bytes, lemma_u16_roundtrip, put_u16, splice, u16_at},
    WireFormatError,
};

verus! {

/// Identity of a single port of a PTP instance (IEEE1588-2019 section 5.3.5)
#[derive(Debug, Clone, Copy, PartialEq, Eq, PartialOrd, Ord, Hash)]
pub struct PortIdentity {
    /// Identity of the clock this port is part of
    pub clock_identity: ClockIdentity,
    /// Index of the port (1-based).
    pub port_number: u16,
}

impl PortIdentity {
    /// The bytes of this identity on the wire.
    pub open spec fn to_wire(self) -> Seq<u8> {
        self.clock_identity.to_wire() + be_u16(self.port_number)
    }

    /// The identity stored at `at` in `b`.
    pub open spec fn from_wire(b: Seq<u8>, at: int) -> Self {
        PortIdentity { clock_identity: ClockIdentity::from_wire(b, at), port_number: u16_at(b, at + 8) }
    }

    /// Whether two port identities are the same.
    pub fn same_as(&self, other: &Self) -> (r: bool)
        ensures
            r == (*self == *other),
    {
        self.clock_identity.same_as(&other.clock_identity) && self.port_number == other.port_number
    }

    /// The byte size on the wire of this object
    pub fn wire_size(&self) -> (r: usize)
        ensures
            r == 10,
    {
        10
    }

    /// Writes the identity at `at`.
    pub fn write_at(&self, buffer: &mut [u8], at: usize)
        requires
            at + 10 <= old(buffer).len(),
        ensures
            final(buffer)@ == splice(old(buffer)@, at as int, self.to_wire()),
    {
        self.clock_identity.write_at(buffer, at);
        put_u16(buffer, at + 8, self.port_number);
        proof {
            lemma_splice_twice(old(buffer)@, at as int, self.clock_identity.to_wire(), be_u16(self.port_number));
        }
    }

    /// Reads the identity stored at `at`.
    pub fn read_at(buffer: &[u8], at: usize) -> (r: Self)
        requires
            at + 10 <= buffer.len(),
        ensures
            r == Self::from_wire(buffer@, at as int),
    {
        PortIdentity { clock_identity: ClockIdentity::read_at(buffer, at), port_number: get_u16(buffer, at + 8) }
    }

    /// Serializes the identity into the first ten bytes of the buffer.
    pub fn serialize(&self, buffer: &mut [u8]) -> (r: Result<(), WireFormatError>)
        requires
            old(buffer).len() >= 10,
        ensures
            r is Ok,
            final(buffer)@ == splice(old(buffer)@, 0, self.to_wire()),
    {
        self.write_at(buffer, 0);
        Ok(())
    }

    /// Deserializes an identity from the first ten bytes of the buffer.
    pub fn deserialize(buffer: &[u8]) -> (r: Result<Self, WireFormatError>)
        requires
            buffer.len() >= 10,
        ensures
            r == Ok::<Self, WireFormatError>(Self::from_wire(buffer@, 0)),
    {
        Ok(Self::read_at(buffer, 0))
    }

    /// Reading back a written identity gives the identity.
    pub proof fn lemma_roundtrip(self, b: Seq<u8>, at: int)
        requires
            0 <= at,
            at + 10 <= b.len(),
            b.subrange(at, at + 10) == self.to_wire(),
        ensures
            Self::from_wire(b, at) == self,
    {
        let w = self.to_wire();
        lemma_part(b, at, w, 0, 8);
        assert(w.subrange(0, 8) =~= self.clock_identity.to_wire());
        self.clock_identity.lemma_roundtrip(b, at);
        lemma_part(b, at, w, 8, 2);
        assert(w.subrange(8, 10) =~= be_u16(self.port_number));
        lemma_u16_roundtrip(self.port_number, b, at + 8);
    }

    /// Writing a read identity gives back the bytes.
    pub proof fn lemma_bytes(b: Seq<u8>, at: int)
        requires
            0 <= at,
            at + 10 <= b.len(),
        ensures
            Self::from_wire(b, at).to_wire() == b.subrange(at, at + 10),
    {
        ClockIdentity::lemma_bytes(b, at);
        lemma_u16_bytes(b, at + 8);
        assert(Self::from_wire(b, at).to_wire() =~= b.subrange(at, at + 10));
    }
}

impl PortIdentity {
    /// Port zero of the identity of eight zero bytes.
    pub open spec fn spec_default() -> PortIdentity {
        PortIdentity { clock_identity: ClockIdentity::spec_default(), port_number: 0 }
    }
}

impl Default for PortIdentity {
    fn default() -> (r: Self)
        ensures
            r == PortIdentity::spec_default(),
            r.clock_identity.bytes() == seq![0u8, 0u8, 0u8, 0u8, 0u8, 0u8, 0u8, 0u8],
            r.port_number == 0,
    {
        PortIdentity { clock_identity: ClockIdentity::default(), port_number: 0 }
    }
}

} // verus!
