use vstd::prelude::*;

use crate::datastructures::{
    wire::{be_u32, be_u48, get_u32, get_u48, lemma_part, lemma_splice_twice, lemma_u32_bytes, lemma_u32_roundtrip, lemma_u48_bytes, lemma_u48_roundtrip, put_u32, put_u48, splice, u32_at, u48_at},
    WireFormatError,
};

verus! {

/// A timestamp as carried by PTP version 2 messages: 48 bits of seconds
/// and 32 bits of nanoseconds (IEEE1588-2019 section 5.3.3).
#[derive(Debug, Clone, Copy, PartialEq, Eq, Default, PartialOrd, Ord, Hash)]
pub struct WireTimestamp {
    /// The seconds field of the timestamp (only the low 48 bits are sent).
    pub seconds: u64,
    /// The nanoseconds field of the timestamp.
    pub nanos: u32,
}

/// The timestamp type carried in PTP version 2 messages.
pub type Timestamp = WireTimestamp;

impl WireTimestamp {
    /// Whether `self` is later than `other`: timestamps are ordered by
    /// seconds, then by nanoseconds.
    pub open spec fn later_than(self, other: Self) -> bool {
        self.seconds > other.seconds || (self.seconds == other.seconds && self.nanos > other.nanos)
    }

    /// Compares two timestamps: `1` when `self` is later, `-1` when `other`
    /// is later and `0` when they are equal.
    pub fn time_order(&self, other: &Self) -> (r: i8)
        ensures
            r == 1 <==> self.later_than(*other),
            r == -1 <==> other.later_than(*self),
            r == 0 <==> *self == *other,
    {
        if self.seconds > other.seconds || (self.seconds == other.seconds && self.nanos > other.nanos) {
            1
        } else if self.seconds == other.seconds && self.nanos == other.nanos {
            0
        } else {
            -1
        }
    }

    /// The bytes of this timestamp on the wire.
    pub open spec fn to_wire(self) -> Seq<u8> {
        be_u48(self.seconds) + be_u32(self.nanos)
    }

    /// The timestamp stored at `at` in `b`.
    pub open spec fn from_wire(b: Seq<u8>, at: int) -> Self {
        WireTimestamp { seconds: u48_at(b, at), nanos: u32_at(b, at + 6) }
    }

    /// The byte size on the wire of this object
    pub fn wire_size(&self) -> (r: usize)
        ensures
            r == 10,
    {
        10
    }

    /// Writes the timestamp at `at`.
    pub fn write_at(&self, buffer: &mut [u8], at: usize)
        requires
            at + 10 <= old(buffer).len(),
        ensures
            final(buffer)@ == splice(old(buffer)@, at as int, self.to_wire()),
    {
        put_u48(buffer, at, self.seconds);
        put_u32(buffer, at + 6, self.nanos);
        proof {
            lemma_splice_twice(old(buffer)@, at as int, be_u48(self.seconds), be_u32(self.nanos));
        }
    }

    /// Reads the timestamp stored at `at`.
    pub fn read_at(buffer: &[u8], at: usize) -> (r: Self)
        requires
            at + 10 <= buffer.len(),
        ensures
            r == Self::from_wire(buffer@, at as int),
    {
        WireTimestamp { seconds: get_u48(buffer, at), nanos: get_u32(buffer, at + 6) }
    }

    /// Serializes the timestamp into the first ten bytes of the buffer.
    pub fn serialize(&self, buffer: &mut [u8]) -> (r: Result<(), WireFormatError>)
        requires
            old(buffer).len() >= 10,
        ensures
            r is Ok,
            final(buffer)@ == splice(old(buffer)@, 0, self.to_wire()),
    {
        self.write_at(buffer, 0);
        Ok(())
    }

    /// Deserializes a timestamp from the first ten bytes of the buffer.
    pub fn deserialize(buffer: &[u8]) -> (r: Result<Self, WireFormatError>)
        requires
            buffer.len() >= 10,
        ensures
            r == Ok::<Self, WireFormatError>(Self::from_wire(buffer@, 0)),
    {
        Ok(Self::read_at(buffer, 0))
    }

    /// Reading back a written timestamp gives the timestamp, when its
    /// seconds fit in 48 bits.
    pub proof fn lemma_roundtrip(self, b: Seq<u8>, at: int)
        requires
            0 <= at,
            at + 10 <= b.len(),
            self.seconds < 0x1_0000_0000_0000,
            b.subrange(at, at + 10) == self.to_wire(),
        ensures
            Self::from_wire(b, at) == self,
    {
        let w = self.to_wire();
        lemma_part(b, at, w, 0, 6);
        assert(w.subrange(0, 6) =~= be_u48(self.seconds));
        lemma_u48_roundtrip(self.seconds, b, at);
        lemma_part(b, at, w, 6, 4);
        assert(w.subrange(6, 10) =~= be_u32(self.nanos));
        lemma_u32_roundtrip(self.nanos, b, at + 6);
    }

    /// Writing a read timestamp gives back the bytes.
    pub proof fn lemma_bytes(b: Seq<u8>, at: int)
        requires
            0 <= at,
            at + 10 <= b.len(),
        ensures
            Self::from_wire(b, at).to_wire() == b.subrange(at, at + 10),
            Self::from_wire(b, at).seconds < 0x1_0000_0000_0000,
    {
        lemma_u48_bytes(b, at);
        lemma_u32_bytes(b, at + 6);
        assert(Self::from_wire(b, at).to_wire() =~= b.subrange(at, at + 10));
    }
}

} // verus!
