use vstd::prelude::*;

use crate::datastructures::{
    wire::{be_u32, get_u32, lemma_part, lemma_splice_twice, lemma_u32_bytes, lemma_u32_roundtrip, put_u32, splice, u32_at},
    WireFormatError,
};

verus! {

/// A timestamp as carried by PTP version 1 messages.
#[derive(Debug, Clone, Copy, PartialEq, Eq, Default, PartialOrd, Ord)]
pub struct WireTimestampV1 {
    /// The seconds field of the timestamp.
    /// May wrap around (Y38K problem)
    pub seconds: u32,
    /// The nanoseconds field of the timestamp.
    /// Must be less than 10^9
    pub nanos: u32,
}

impl WireTimestampV1 {
    /// The bytes of this timestamp on the wire.
    pub open spec fn to_wire(self) -> Seq<u8> {
        be_u32(self.seconds) + be_u32(self.nanos)
    }

    /// The timestamp stored at `at` in `b`.
    pub open spec fn from_wire(b: Seq<u8>, at: int) -> Self {
        WireTimestampV1 { seconds: u32_at(b, at), nanos: u32_at(b, at + 4) }
    }

    /// Writes the timestamp at `at`.
    pub fn write_at(&self, buffer: &mut [u8], at: usize)
        requires
            at + 8 <= old(buffer).len(),
        ensures
            final(buffer)@ == splice(old(buffer)@, at as int, self.to_wire()),
    {
        put_u32(buffer, at, self.seconds);
        put_u32(buffer, at + 4, self.nanos);
        proof {
            lemma_splice_twice(old(buffer)@, at as int, be_u32(self.seconds), be_u32(self.nanos));
        }
    }

    /// Reads the timestamp stored at `at`.
    pub fn read_at(buffer: &[u8], at: usize) -> (r: Self)
        requires
            at + 8 <= buffer.len(),
        ensures
            r == Self::from_wire(buffer@, at as int),
    {
        WireTimestampV1 { seconds: get_u32(buffer, at), nanos: get_u32(buffer, at + 4) }
    }

    /// Serializes the timestamp into the first eight bytes of the buffer.
    pub fn serialize(&self, buffer: &mut [u8]) -> (r: Result<(), WireFormatError>)
        requires
            old(buffer).len() >= 8,
        ensures
            r is Ok,
            final(buffer)@ == splice(old(buffer)@, 0, self.to_wire()),
    {
        self.write_at(buffer, 0);
        Ok(())
    }

    /// Deserializes a timestamp from the first eight bytes of the buffer.
    pub fn deserialize(buffer: &[u8]) -> (r: Result<Self, WireFormatError>)
        requires
            buffer.len() >= 8,
        ensures
            r == Ok::<Self, WireFormatError>(Self::from_wire(buffer@, 0)),
    {
        Ok(Self::read_at(buffer, 0))
    }

    /// Reading back a written timestamp gives the timestamp.
    pub proof fn lemma_roundtrip(self, b: Seq<u8>, at: int)
        requires
            0 <= at,
            at + 8 <= b.len(),
            b.subrange(at, at + 8) == self.to_wire(),
        ensures
            Self::from_wire(b, at) == self,
    {
        let w = self.to_wire();
        lemma_part(b, at, w, 0, 4);
        assert(w.subrange(0, 4) =~= be_u32(self.seconds));
        lemma_u32_roundtrip(self.seconds, b, at);
        lemma_part(b, at, w, 4, 4);
        assert(w.subrange(4, 8) =~= be_u32(self.nanos));
        lemma_u32_roundtrip(self.nanos, b, at + 4);
    }

    /// Writing a read timestamp gives back the bytes.
    pub proof fn lemma_bytes(b: Seq<u8>, at: int)
        requires
            0 <= at,
            at + 8 <= b.len(),
        ensures
            Self::from_wire(b, at).to_wire() == b.subrange(at, at + 8),
    {
        lemma_u32_bytes(b, at);
        lemma_u32_bytes(b, at + 4);
        assert(Self::from_wire(b, at).to_wire() =~= b.subrange(at, at + 8));
    }
}

} // verus!
