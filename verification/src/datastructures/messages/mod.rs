//! Ptp network messages

use vstd::prelude::*;

mod announce;
mod header;
mod management;
mod management_action;
mod p_delay_resp;
mod p_delay_resp_follow_up;
pub mod signing;
pub mod timing;

pub use announce::AnnounceMessage;
pub use header::Header;
pub use management::ManagementMessage;
pub use management_action::ManagementAction;
pub use p_delay_resp::PDelayRespMessage;
pub use p_delay_resp_follow_up::PDelayRespFollowUpMessage;

use crate::datastructures::{common::PortIdentity, datasets::InternalDefaultDS};

verus! {

/// Maximum length of a packet
///
/// This can be used to preallocate buffers that can always fit packets send by
/// `statime`.
pub const MAX_DATA_LEN: usize = 1024;

/// The kind of a PTP version 2 message (IEEE1588-2019 section 13.3.2.3).
#[derive(Debug, Clone, Copy, PartialEq, Eq, PartialOrd, Ord, Hash)]
pub enum MessageType {
    /// Sync message
    Sync,
    /// Delay request message
    DelayReq,
    /// Peer delay request message
    PDelayReq,
    /// Peer delay response message
    PDelayResp,
    /// Follow up message
    FollowUp,
    /// Delay response message
    DelayResp,
    /// Peer delay response follow up message
    PDelayRespFollowUp,
    /// Announce message
    Announce,
    /// Signaling message
    Signaling,
    /// Management message
    Management,
}

/// Standards organization id, the 12-bit identifier that, with the domain
/// number, names the domain of an instance (IEEE1588-2019 section 7.1.4).
#[derive(Debug, Clone, Copy, PartialEq, Eq, Hash)]
pub struct SdoId(u16);

impl SdoId {
    /// Every id fits in 12 bits.
    #[verifier::type_invariant]
    spec fn fits(self) -> bool {
        self.0 < 0x1000
    }

    /// The id of value zero.
    pub closed spec fn spec_default() -> SdoId {
        SdoId(0)
    }

    /// The 12-bit value of the id.
    pub closed spec fn spec_value(self) -> u16 {
        self.0
    }

    /// The id with the given value, when it fits in 12 bits.
    pub fn new(value: u16) -> (r: Option<Self>)
        ensures
            value < 0x1000 <==> r is Some,
            r matches Some(id) ==> id.spec_value() == value,
    {
        if value < 0x1000 {
            Some(SdoId(value))
        } else {
            None
        }
    }

    /// The 12-bit value of the id.
    pub fn value(&self) -> (r: u16)
        ensures
            r == self.spec_value(),
            r < 0x1000,
    {
        proof {
            use_type_invariant(self);
        }
        self.0
    }
}

impl Default for SdoId {
    fn default() -> (r: Self)
        ensures
            r == SdoId::spec_default(),
            r.spec_value() == 0,
    {
        SdoId(0)
    }
}

/// A value that names no variant of the enum it was read as.
#[derive(Debug, Clone, Copy, PartialEq, Eq)]
pub struct EnumConversionError;

impl MessageType {
    /// The value of this type on the wire.
    pub open spec fn primitive(self) -> u8 {
        match self {
            MessageType::Sync => 0x0,
            MessageType::DelayReq => 0x1,
            MessageType::PDelayReq => 0x2,
            MessageType::PDelayResp => 0x3,
            MessageType::FollowUp => 0x8,
            MessageType::DelayResp => 0x9,
            MessageType::PDelayRespFollowUp => 0xa,
            MessageType::Announce => 0xb,
            MessageType::Signaling => 0xc,
            MessageType::Management => 0xd,
        }
    }

    /// The type named by a value on the wire, if any.
    pub open spec fn from_value(value: u8) -> Option<MessageType> {
        match value {
            0x0 => Some(MessageType::Sync),
            0x1 => Some(MessageType::DelayReq),
            0x2 => Some(MessageType::PDelayReq),
            0x3 => Some(MessageType::PDelayResp),
            0x8 => Some(MessageType::FollowUp),
            0x9 => Some(MessageType::DelayResp),
            0xa => Some(MessageType::PDelayRespFollowUp),
            0xb => Some(MessageType::Announce),
            0xc => Some(MessageType::Signaling),
            0xd => Some(MessageType::Management),
            _ => None,
        }
    }

    /// The value of this type on the wire.
    pub fn to_primitive(self) -> (r: u8)
        ensures
            r == self.primitive(),
    {
        match self {
            MessageType::Sync => 0x0,
            MessageType::DelayReq => 0x1,
            MessageType::PDelayReq => 0x2,
            MessageType::PDelayResp => 0x3,
            MessageType::FollowUp => 0x8,
            MessageType::DelayResp => 0x9,
            MessageType::PDelayRespFollowUp => 0xa,
            MessageType::Announce => 0xb,
            MessageType::Signaling => 0xc,
            MessageType::Management => 0xd,
        }
    }

    /// The type named by a value on the wire.
    pub fn try_from_primitive(value: u8) -> (r: Result<Self, EnumConversionError>)
        ensures
            r == match Self::from_value(value) {
                Some(t) => Ok(t),
                None => Err(EnumConversionError),
            },
    {
        match value {
            0x0 => Ok(MessageType::Sync),
            0x1 => Ok(MessageType::DelayReq),
            0x2 => Ok(MessageType::PDelayReq),
            0x3 => Ok(MessageType::PDelayResp),
            0x8 => Ok(MessageType::FollowUp),
            0x9 => Ok(MessageType::DelayResp),
            0xa => Ok(MessageType::PDelayRespFollowUp),
            0xb => Ok(MessageType::Announce),
            0xc => Ok(MessageType::Signaling),
            0xd => Ok(MessageType::Management),
            _ => Err(EnumConversionError),
        }
    }

    /// Reading back the value of a type gives the type.
    pub proof fn lemma_roundtrip(t: MessageType)
        ensures
            Self::from_value(t.primitive()) == Some(t),
    {
    }
}

/// The header of a message sent by the port `port_identity` of the instance
/// with the default data set `default_ds`: the instance's domain, the port
/// and the sequence id.
pub fn base_header(default_ds: &InternalDefaultDS, port_identity: PortIdentity, sequence_id: u16) -> (r: Header)
    ensures
        r == (Header {
            sdo_id: default_ds.sdo_id,
            domain_number: default_ds.domain_number,
            source_port_identity: port_identity,
            sequence_id,
            ..Header::spec_default()
        }),
{
    Header {
        sdo_id: default_ds.sdo_id,
        domain_number: default_ds.domain_number,
        source_port_identity: port_identity,
        sequence_id,
        ..Header::default()
    }
}

impl TryFrom<u8> for MessageType {
    type Error = EnumConversionError;

    fn try_from(value: u8) -> (r: Result<Self, Self::Error>) {
        Self::try_from_primitive(value)
    }
}

impl vstd::std_specs::convert::TryFromSpecImpl<u8> for MessageType {
    open spec fn obeys_try_from_spec() -> bool {
        true
    }

    open spec fn try_from_spec(v: u8) -> Result<Self, Self::Error> {
        match Self::from_value(v) {
            Some(c) => Ok(c),
            None => Err(EnumConversionError),
        }
    }
}

} // verus!
