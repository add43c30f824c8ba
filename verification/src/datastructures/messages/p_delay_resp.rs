use vstd::prelude::*;

use crate::datastructures::{
    common::{PortIdentity, WireTimestamp},
    wire::{lemma_part, lemma_splice_twice, splice},
    WireFormatError,
};

verus! {

/// The body of a peer delay response message.
#[derive(Debug, Clone, Copy, PartialEq, Eq)]
pub struct PDelayRespMessage {
    /// Time at which the peer delay request was received.
    pub request_receive_timestamp: WireTimestamp,
    /// Port that sent the peer delay request.
    pub requesting_port_identity: PortIdentity,
}

impl PDelayRespMessage {
    /// The 20 bytes of this body on the wire.
    pub open spec fn to_wire(self) -> Seq<u8> {
        self.request_receive_timestamp.to_wire() + self.requesting_port_identity.to_wire()
    }

    /// The body stored at `at` in `b`.
    pub open spec fn from_wire(b: Seq<u8>, at: int) -> Self {
        PDelayRespMessage {
            request_receive_timestamp: WireTimestamp::from_wire(b, at),
            requesting_port_identity: PortIdentity::from_wire(b, at + 10),
        }
    }

    /// The byte size on the wire of the body.
    pub fn content_size(&self) -> (r: usize)
        ensures
            r == 20,
    {
        20
    }

    /// Serializes the body into the first 20 bytes of the buffer.
    pub fn serialize_content(&self, buffer: &mut [u8]) -> (r: Result<(), WireFormatError>)
        ensures
            old(buffer)@.len() < 20 ==> r == Err::<(), WireFormatError>(WireFormatError::BufferTooShort)
                && final(buffer)@ == old(buffer)@,
            old(buffer)@.len() >= 20 ==> r is Ok && final(buffer)@ == splice(old(buffer)@, 0, self.to_wire()),
    {
        if buffer.len() < 20 {
            return Err(WireFormatError::BufferTooShort);
        }
        self.request_receive_timestamp.write_at(buffer, 0);
        self.requesting_port_identity.write_at(buffer, 10);
        proof {
            lemma_splice_twice(old(buffer)@, 0, self.request_receive_timestamp.to_wire(), self.requesting_port_identity.to_wire());
        }
        Ok(())
    }

    /// Deserializes a body from the first 20 bytes of the buffer.
    pub fn deserialize_content(buffer: &[u8]) -> (r: Result<Self, WireFormatError>)
        ensures
            buffer@.len() < 20 ==> r == Err::<Self, WireFormatError>(WireFormatError::BufferTooShort),
            buffer@.len() >= 20 ==> r == Ok::<Self, WireFormatError>(Self::from_wire(buffer@, 0)),
    {
        if buffer.len() < 20 {
            return Err(WireFormatError::BufferTooShort);
        }
        Ok(Self {
            request_receive_timestamp: WireTimestamp::read_at(buffer, 0),
            requesting_port_identity: PortIdentity::read_at(buffer, 10),
        })
    }

    /// Reading back a written body gives the body, when the seconds of its
    /// timestamp fit in 48 bits.
    pub proof fn lemma_roundtrip(self, b: Seq<u8>, at: int)
        requires
            0 <= at,
            at + 20 <= b.len(),
            self.request_receive_timestamp.seconds < 0x1_0000_0000_0000,
            b.subrange(at, at + 20) == self.to_wire(),
        ensures
            Self::from_wire(b, at) == self,
    {
        let w = self.to_wire();
        lemma_part(b, at, w, 0, 10);
        assert(w.subrange(0, 10) =~= self.request_receive_timestamp.to_wire());
        self.request_receive_timestamp.lemma_roundtrip(b, at);
        lemma_part(b, at, w, 10, 10);
        assert(w.subrange(10, 20) =~= self.requesting_port_identity.to_wire());
        self.requesting_port_identity.lemma_roundtrip(b, at + 10);
    }

    /// Writing a read body gives back the bytes.
    pub proof fn lemma_bytes(b: Seq<u8>, at: int)
        requires
            0 <= at,
            at + 20 <= b.len(),
        ensures
            Self::from_wire(b, at).to_wire() == b.subrange(at, at + 20),
    {
        WireTimestamp::lemma_bytes(b, at);
        PortIdentity::lemma_bytes(b, at + 10);
        assert(Self::from_wire(b, at).to_wire() =~= b.subrange(at, at + 20));
    }
}

} // verus!
