use vstd::prelude::*;

use vstd::slice::slice_subrange;

use super::{Header, ManagementAction};
use crate::datastructures::{
    common::{PortIdentity, TLV},
    WireFormatError,
};

verus! {

/// The body of a management message.
#[derive(Debug, Clone, PartialEq, Eq)]
pub struct ManagementMessage {
    /// The header of the message.
    pub header: Header,
    /// The port the message is meant for.
    pub target_port_identity: PortIdentity,
    /// Boundary hops the message started with.
    pub starting_boundary_hops: u8,
    /// Boundary hops the message has left.
    pub boundary_hops: u8,
    /// What the message asks for.
    pub action: ManagementAction,
    /// The management TLV of the message.
    pub management_tlv: TLV,
}

impl ManagementMessage {
    /// The byte size of the fixed part of the body.
    pub fn content_size(&self) -> (r: usize)
        ensures
            r == 10,
    {
        10
    }

    /// Deserializes a body, read with `header`.
    ///
    /// The management TLV is read from byte 13 on, and a TLV of five bytes
    /// or more is always rejected (see [`TLV::deserialize`]): buffers
    /// shorter than 18 bytes give `BufferTooShort`, all others `SliceError`.
    pub fn deserialize_content(header: Header, buffer: &[u8]) -> (r: Result<Self, WireFormatError>)
        ensures
            buffer@.len() < 18 ==> r == Err::<Self, WireFormatError>(WireFormatError::BufferTooShort),
            buffer@.len() >= 18 ==> r == Err::<Self, WireFormatError>(WireFormatError::SliceError),
    {
        if buffer.len() < 14 {
            return Err(WireFormatError::BufferTooShort);
        }
        let target_port_identity = PortIdentity::read_at(buffer, 0);
        let starting_boundary_hops = buffer[11];
        let boundary_hops = buffer[12];
        let action = ManagementAction::from_primitive(buffer[13]);
        let management_tlv = TLV::deserialize(slice_subrange(buffer, 13, buffer.len()))?;
        Ok(Self {
            header,
            target_port_identity,
            starting_boundary_hops,
            boundary_hops,
            action,
            management_tlv,
        })
    }
}

} // verus!
