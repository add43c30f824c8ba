use vstd::prelude::*;

use super::Header;
use crate::datastructures::{
    common::{PortIdentity, Timestamp, WireTimestamp},
    wire::{lemma_part, lemma_splice_twice, splice},
    WireFormatError,
};

verus! {

/// The body of a peer delay response follow up message.
#[derive(Debug, Clone, Copy, PartialEq, Eq)]
pub struct PDelayRespFollowUpMessage {
    /// The header of the message.
    pub header: Header,
    /// Time at which the peer delay response was sent.
    pub response_origin_timestamp: Timestamp,
    /// Port that sent the peer delay request.
    pub requesting_port_identity: PortIdentity,
}

impl PDelayRespFollowUpMessage {
    /// The 20 bytes of this body on the wire.
    pub open spec fn to_wire(self) -> Seq<u8> {
        self.response_origin_timestamp.to_wire() + self.requesting_port_identity.to_wire()
    }

    /// The body stored at `at` in `b`, read with `header`.
    pub open spec fn from_wire(header: Header, b: Seq<u8>, at: int) -> Self {
        PDelayRespFollowUpMessage {
            header,
            response_origin_timestamp: WireTimestamp::from_wire(b, at),
            requesting_port_identity: PortIdentity::from_wire(b, at + 10),
        }
    }

    /// The header of the message.
    pub fn header(&self) -> (r: Header)
        ensures
            r == self.header,
    {
        self.header
    }

    /// Time at which the peer delay response was sent.
    pub fn response_origin_timestamp(&self) -> (r: Timestamp)
        ensures
            r == self.response_origin_timestamp,
    {
        self.response_origin_timestamp
    }

    /// Port that sent the peer delay request.
    pub fn requesting_port_identity(&self) -> (r: PortIdentity)
        ensures
            r == self.requesting_port_identity,
    {
        self.requesting_port_identity
    }

    /// The byte size on the wire of the body.
    pub fn content_size(&self) -> (r: usize)
        ensures
            r == 20,
    {
        20
    }

    /// Serializes the body into the first 20 bytes of the buffer.
    pub fn serialize_content(&self, buffer: &mut [u8]) -> (r: Result<(), WireFormatError>)
        ensures
            old(buffer)@.len() < 20 ==> r == Err::<(), WireFormatError>(WireFormatError::BufferTooShort)
                && final(buffer)@ == old(buffer)@,
            old(buffer)@.len() >= 20 ==> r is Ok && final(buffer)@ == splice(old(buffer)@, 0, self.to_wire()),
    {
        if buffer.len() < 20 {
            return Err(WireFormatError::BufferTooShort);
        }
        self.response_origin_timestamp.write_at(buffer, 0);
        self.requesting_port_identity.write_at(buffer, 10);
        proof {
            lemma_splice_twice(old(buffer)@, 0, self.response_origin_timestamp.to_wire(), self.requesting_port_identity.to_wire());
        }
        Ok(())
    }

    /// Deserializes a body, read with `header`, from the first 20 bytes of
    /// the buffer.
    pub fn deserialize_content(header: Header, buffer: &[u8]) -> (r: Result<Self, WireFormatError>)
        ensures
            buffer@.len() < 20 ==> r == Err::<Self, WireFormatError>(WireFormatError::BufferTooShort),
            buffer@.len() >= 20 ==> r == Ok::<Self, WireFormatError>(Self::from_wire(header, buffer@, 0)),
    {
        if buffer.len() < 20 {
            return Err(WireFormatError::BufferTooShort);
        }
        Ok(Self {
            header,
            response_origin_timestamp: WireTimestamp::read_at(buffer, 0),
            requesting_port_identity: PortIdentity::read_at(buffer, 10),
        })
    }

    /// Reading back a written body, with the header it has, gives the body,
    /// when the seconds of its timestamp fit in 48 bits.
    pub proof fn lemma_roundtrip(self, b: Seq<u8>, at: int)
        requires
            0 <= at,
            at + 20 <= b.len(),
            self.response_origin_timestamp.seconds < 0x1_0000_0000_0000,
            b.subrange(at, at + 20) == self.to_wire(),
        ensures
            Self::from_wire(self.header, b, at) == self,
    {
        let w = self.to_wire();
        lemma_part(b, at, w, 0, 10);
        assert(w.subrange(0, 10) =~= self.response_origin_timestamp.to_wire());
        self.response_origin_timestamp.lemma_roundtrip(b, at);
        lemma_part(b, at, w, 10, 10);
        assert(w.subrange(10, 20) =~= self.requesting_port_identity.to_wire());
        self.requesting_port_identity.lemma_roundtrip(b, at + 10);
    }
}

} // verus!
