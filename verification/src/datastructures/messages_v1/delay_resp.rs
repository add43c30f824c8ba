use vstd::prelude::*;

use crate::datastructures::{
    common::WireTimestampV1,
    wire::{be_u16, get_u16, lemma_part, lemma_u16_roundtrip, put_bytes, splice, u16_at},
    WireFormatError,
};

verus! {

/// The body of a PTP version 1 delay response message.
#[derive(Debug, Clone, Copy, PartialEq, Eq)]
pub struct DelayRespMessage {
    /// Time at which the delay request was received.
    pub receive_timestamp: WireTimestampV1,
    /// Communication technology of the requester.
    pub requesting_source_communication_technology: u8,
    /// Unique identifier of the requester.
    pub requesting_source_uuid: [u8; 6],
    /// Port of the requester.
    pub requesting_source_port_id: u16,
    /// Sequence id of the delay request.
    pub requesting_source_sequence_id: u16,
}

impl DelayRespMessage {
    /// The 20 bytes of this body on the wire.
    pub open spec fn to_wire(self) -> Seq<u8> {
        self.receive_timestamp.to_wire() + seq![0u8, self.requesting_source_communication_technology]
            + self.requesting_source_uuid@ + be_u16(self.requesting_source_port_id) + be_u16(
            self.requesting_source_sequence_id,
        )
    }

    /// The body stored at `at` in `b`.
    pub open spec fn from_wire(b: Seq<u8>, at: int) -> Self {
        DelayRespMessage {
            receive_timestamp: WireTimestampV1::from_wire(b, at),
            requesting_source_communication_technology: b[at + 9],
            requesting_source_uuid: [b[at + 10], b[at + 11], b[at + 12], b[at + 13], b[at + 14], b[at + 15]],
            requesting_source_port_id: u16_at(b, at + 16),
            requesting_source_sequence_id: u16_at(b, at + 18),
        }
    }

    /// The byte size on the wire of the body.
    pub fn content_size(&self) -> (r: usize)
        ensures
            r == 20,
    {
        20
    }

    /// The 20 bytes of this body on the wire.
    pub fn to_bytes(&self) -> (r: [u8; 20])
        ensures
            r@ == self.to_wire(),
    {
        let ts = self.receive_timestamp;
        let r = [
            (ts.seconds >> 24u32) as u8,
            (ts.seconds >> 16u32) as u8,
            (ts.seconds >> 8u32) as u8,
            ts.seconds as u8,
            (ts.nanos >> 24u32) as u8,
            (ts.nanos >> 16u32) as u8,
            (ts.nanos >> 8u32) as u8,
            ts.nanos as u8,
            0,
            self.requesting_source_communication_technology,
            self.requesting_source_uuid[0],
            self.requesting_source_uuid[1],
            self.requesting_source_uuid[2],
            self.requesting_source_uuid[3],
            self.requesting_source_uuid[4],
            self.requesting_source_uuid[5],
            (self.requesting_source_port_id >> 8u16) as u8,
            self.requesting_source_port_id as u8,
            (self.requesting_source_sequence_id >> 8u16) as u8,
            self.requesting_source_sequence_id as u8,
        ];
        assert(r@ =~= self.to_wire());
        r
    }

    /// Writes the body at `at`.
    pub fn write_at(&self, buffer: &mut [u8], at: usize)
        requires
            at + 20 <= old(buffer).len(),
        ensures
            final(buffer)@ == splice(old(buffer)@, at as int, self.to_wire()),
    {
        let bytes = self.to_bytes();
        put_bytes(buffer, at, &bytes);
    }

    /// Serializes the body into the first 20 bytes of the buffer.
    pub fn serialize_content(&self, buffer: &mut [u8]) -> (r: Result<(), WireFormatError>)
        requires
            old(buffer).len() >= 20,
        ensures
            r is Ok,
            final(buffer)@ == splice(old(buffer)@, 0, self.to_wire()),
    {
        self.write_at(buffer, 0);
        Ok(())
    }

    /// Deserializes a body from the first 20 bytes of the buffer.
    pub fn deserialize_content(buffer: &[u8]) -> (r: Result<Self, WireFormatError>)
        ensures
            buffer@.len() < 20 ==> r == Err::<Self, WireFormatError>(WireFormatError::BufferTooShort),
            buffer@.len() >= 20 ==> r == Ok::<Self, WireFormatError>(Self::from_wire(buffer@, 0)),
    {
        if buffer.len() < 20 {
            return Err(WireFormatError::BufferTooShort);
        }
        let receive_timestamp = WireTimestampV1::read_at(buffer, 0);
        Ok(Self {
            receive_timestamp,
            requesting_source_communication_technology: buffer[9],
            requesting_source_uuid: [buffer[10], buffer[11], buffer[12], buffer[13], buffer[14], buffer[15]],
            requesting_source_port_id: get_u16(buffer, 16),
            requesting_source_sequence_id: get_u16(buffer, 18),
        })
    }

    /// Reading back a written body gives the body.
    pub proof fn lemma_roundtrip(self, b: Seq<u8>, at: int)
        requires
            0 <= at,
            at + 20 <= b.len(),
            b.subrange(at, at + 20) == self.to_wire(),
        ensures
            Self::from_wire(b, at) == self,
    {
        let w = self.to_wire();
        assert forall|j: int| 0 <= j < 20 implies #[trigger] b[at + j] == w[j] by {
            assert(b.subrange(at, at + 20)[j] == b[at + j]);
        }
        lemma_part(b, at, w, 0, 8);
        assert(w.subrange(0, 8) =~= self.receive_timestamp.to_wire());
        self.receive_timestamp.lemma_roundtrip(b, at);
        lemma_part(b, at, w, 16, 2);
        assert(w.subrange(16, 18) =~= be_u16(self.requesting_source_port_id));
        lemma_u16_roundtrip(self.requesting_source_port_id, b, at + 16);
        lemma_part(b, at, w, 18, 2);
        assert(w.subrange(18, 20) =~= be_u16(self.requesting_source_sequence_id));
        lemma_u16_roundtrip(self.requesting_source_sequence_id, b, at + 18);
        let r = Self::from_wire(b, at);
        assert(b[at + 9] == w[9]);
        assert forall|i: int| 0 <= i < 6 implies r.requesting_source_uuid[i] == self.requesting_source_uuid[i] by {
            assert(b[at + 10 + i] == w[10 + i]);
        }
        assert(r.requesting_source_uuid =~= self.requesting_source_uuid);
    }
}

} // verus!
