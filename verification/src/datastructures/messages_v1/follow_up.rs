use vstd::prelude::*;

use crate::datastructures::{
    common::WireTimestampV1,
    wire::{be_u16, get_u16, put_u16, splice, u16_at, lemma_splice_twice},
    WireFormatError,
};

verus! {

/// The body of a PTP version 1 follow up message.
#[derive(Debug, Clone, Copy, PartialEq, Eq)]
pub struct FollowUpMessage {
    /// Sequence id of the sync message this follows up on.
    pub associated_sequence_id: u16,
    /// Precise time at which that sync message was sent.
    pub precise_origin_timestamp: WireTimestampV1,
}

impl FollowUpMessage {
    /// The bytes that serializing this body writes: the sequence id at
    /// bytes 0 and 1, the timestamp at bytes 2 to 9.
    pub open spec fn to_wire(self) -> Seq<u8> {
        be_u16(self.associated_sequence_id) + self.precise_origin_timestamp.to_wire()
    }

    /// The body that deserializing reads at `at`: the sequence id from bytes
    /// 2 and 3, the timestamp from bytes 4 to 11.
    pub open spec fn from_wire(b: Seq<u8>, at: int) -> Self {
        FollowUpMessage {
            associated_sequence_id: u16_at(b, at + 2),
            precise_origin_timestamp: WireTimestampV1::from_wire(b, at + 4),
        }
    }

    /// The byte size on the wire of the body.
    pub fn content_size(&self) -> (r: usize)
        ensures
            r == 12,
    {
        12
    }

    /// Writes the body at `at`: the sequence id into the first two bytes, the
    /// timestamp into the eight after them.
    pub fn write_at(&self, buffer: &mut [u8], at: usize)
        requires
            at + 10 <= old(buffer).len(),
        ensures
            final(buffer)@ == splice(old(buffer)@, at as int, self.to_wire()),
    {
        put_u16(buffer, at, self.associated_sequence_id);
        self.precise_origin_timestamp.write_at(buffer, at + 2);
        proof {
            lemma_splice_twice(old(buffer)@, at as int, be_u16(self.associated_sequence_id), self.precise_origin_timestamp.to_wire());
        }
    }

    /// Serializes the body: the sequence id into bytes 0 and 1 and the
    /// timestamp into bytes 2 to 9.
    pub fn serialize_content(&self, buffer: &mut [u8]) -> (r: Result<(), WireFormatError>)
        requires
            old(buffer).len() >= 10,
        ensures
            r is Ok,
            final(buffer)@ == splice(old(buffer)@, 0, self.to_wire()),
    {
        self.write_at(buffer, 0);
        Ok(())
    }

    /// Deserializes a body: the sequence id from bytes 2 and 3 and the
    /// timestamp from bytes 4 to 11.
    pub fn deserialize_content(buffer: &[u8]) -> (r: Result<Self, WireFormatError>)
        ensures
            buffer@.len() < 12 ==> r == Err::<Self, WireFormatError>(WireFormatError::BufferTooShort),
            buffer@.len() >= 12 ==> r == Ok::<Self, WireFormatError>(Self::from_wire(buffer@, 0)),
    {
        if buffer.len() < 12 {
            return Err(WireFormatError::BufferTooShort);
        }
        let precise_origin_timestamp = WireTimestampV1::read_at(buffer, 4);
        Ok(Self { associated_sequence_id: get_u16(buffer, 2), precise_origin_timestamp })
    }
}

} // verus!
