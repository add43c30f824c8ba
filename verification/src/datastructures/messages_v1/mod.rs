//! PTPv1 network messages

use vstd::prelude::*;
use vstd::slice::slice_subrange;

use crate::datastructures::{
    common::{GrandmasterPropertiesV1, PortIdentity, WireTimestampV1},
    datasets::{InternalDefaultDS, InternalParentDS, TimePropertiesDS},
    wire::{lemma_part, lemma_splice_twice, splice},
    WireFormatError,
};

mod control_field;
mod delay_resp;
mod follow_up;
mod header;
mod sync_or_delay_req;

pub use control_field::ControlField;
pub use delay_resp::DelayRespMessage;
pub use follow_up::FollowUpMessage;
pub use header::{DeserializedHeader, Header};
pub use sync_or_delay_req::{DelayReqMessage, SyncMessage, SyncOrDelayReqMessage};

verus! {

/// Maximum length of a packet
///
/// This can be used to preallocate buffers that can always fit packets send by
/// `statime`.
pub const MAX_DATA_LEN: usize = 255;

/// Whether the buffer holds a PTP version 1 message: its first two bytes
/// hold the protocol version 1.
pub open spec fn is_v1(b: Seq<u8>) -> bool {
    b.len() >= 2 && b[0] == 0 && b[1] == 1
}

/// Checks whether message is PTPv1
pub fn is_compatible(buffer: &[u8]) -> (r: bool)
    ensures
        r == is_v1(buffer@),
{
    // this ensures that versionPTP in the header is 1
    (buffer.len() >= 2) && (buffer[0] == 0) && (buffer[1] == 1)
}

/// Type of message, used to differentiate low-delay and other messages.
/// `Event` is low-delay.
///
/// To avoid confusion with PTPv2 MessageType which is functionally equivalent
/// to ControlField in PTPv1, PTPv1's messageType is called here PortType
#[derive(Debug, Clone, Copy, PartialEq, Eq)]
pub enum PortType {
    /// Messages that are timestamped on sending and receiving.
    Event,
    /// Other messages.
    General,
}

impl PortType {
    /// The value of this type on the wire.
    pub open spec fn primitive(self) -> u8 {
        match self {
            PortType::Event => 0x1,
            PortType::General => 0x2,
        }
    }

    /// The type named by a value on the wire, if any.
    pub open spec fn from_value(value: u8) -> Option<PortType> {
        match value {
            0x1 => Some(PortType::Event),
            0x2 => Some(PortType::General),
            _ => None,
        }
    }

    /// The port type that messages of kind `control` are sent with: sync
    /// and delay request messages are events.
    pub open spec fn of_control(control: ControlField) -> PortType {
        match control {
            ControlField::Sync | ControlField::DelayReq => PortType::Event,
            _ => PortType::General,
        }
    }

    /// The value of this type on the wire.
    pub fn to_primitive(self) -> (r: u8)
        ensures
            r == self.primitive(),
    {
        match self {
            PortType::Event => 0x1,
            PortType::General => 0x2,
        }
    }

    /// The type named by a value on the wire.
    pub fn try_from_primitive(value: u8) -> (r: Result<Self, crate::datastructures::messages::EnumConversionError>)
        ensures
            r == match Self::from_value(value) {
                Some(t) => Ok(t),
                None => Err(crate::datastructures::messages::EnumConversionError),
            },
    {
        match value {
            0x1 => Ok(PortType::Event),
            0x2 => Ok(PortType::General),
            _ => Err(crate::datastructures::messages::EnumConversionError),
        }
    }
}

/// A PTP version 1 message.
#[derive(Debug, Clone, PartialEq, Eq)]
pub struct Message {
    /// The header of the message.
    pub header: Header,
    /// The body of the message.
    pub body: MessageBody,
}

impl Message {
    /// Whether the message is sent over the event channel: sync and delay
    /// request messages.
    pub open spec fn spec_is_event(self) -> bool {
        self.body is Sync || self.body is DelayReq
    }

    /// Whether this message is an event message.
    pub fn is_event(&self) -> (r: bool)
        ensures
            r == self.spec_is_event(),
    {
        match self.body {
            MessageBody::Sync(_) | MessageBody::DelayReq(_) => true,
            MessageBody::FollowUp(_) | MessageBody::DelayResp(_) => false,
        }
    }
}

/// The body of a PTP version 1 message.
#[derive(Debug, Clone, PartialEq, Eq)]
pub enum MessageBody {
    /// Sync message
    Sync(SyncMessage),
    /// Delay request message
    DelayReq(DelayReqMessage),
    /// Follow up message
    FollowUp(FollowUpMessage),
    /// Delay response message
    DelayResp(DelayRespMessage),
}

impl MessageBody {
    /// The byte size on the wire of the body.
    pub open spec fn size(self) -> nat {
        match self {
            MessageBody::Sync(_) | MessageBody::DelayReq(_) => 84,
            MessageBody::FollowUp(_) => 12,
            MessageBody::DelayResp(_) => 20,
        }
    }

    /// The kind of message this body belongs to.
    pub open spec fn control(self) -> ControlField {
        match self {
            MessageBody::Sync(_) => ControlField::Sync,
            MessageBody::DelayReq(_) => ControlField::DelayReq,
            MessageBody::FollowUp(_) => ControlField::FollowUp,
            MessageBody::DelayResp(_) => ControlField::DelayResp,
        }
    }

    /// The bytes that serializing the body writes.
    pub open spec fn to_wire(self) -> Seq<u8> {
        match self {
            MessageBody::Sync(m) | MessageBody::DelayReq(m) => m.to_wire(),
            MessageBody::FollowUp(m) => m.to_wire(),
            MessageBody::DelayResp(m) => m.to_wire(),
        }
    }

    /// What deserializing a body of kind `control`, read with `header`, from
    /// the content bytes `c` gives.
    pub open spec fn parse(control: ControlField, header: Header, c: Seq<u8>) -> Result<
        MessageBody,
        WireFormatError,
    > {
        match control {
            ControlField::Sync => if c.len() < 84 {
                Err(WireFormatError::BufferTooShort)
            } else {
                Ok(MessageBody::Sync(SyncOrDelayReqMessage::from_wire(header, c, 0)))
            },
            ControlField::DelayReq => if c.len() < 84 {
                Err(WireFormatError::BufferTooShort)
            } else {
                Ok(MessageBody::DelayReq(SyncOrDelayReqMessage::from_wire(header, c, 0)))
            },
            ControlField::FollowUp => if c.len() < 12 {
                Err(WireFormatError::BufferTooShort)
            } else {
                Ok(MessageBody::FollowUp(FollowUpMessage::from_wire(c, 0)))
            },
            ControlField::DelayResp => if c.len() < 20 {
                Err(WireFormatError::BufferTooShort)
            } else {
                Ok(MessageBody::DelayResp(DelayRespMessage::from_wire(c, 0)))
            },
        }
    }

    /// The byte size on the wire of the body.
    pub fn wire_size(&self) -> (r: usize)
        ensures
            r == self.size(),
    {
        match self {
            MessageBody::Sync(m) => m.content_size(),
            MessageBody::DelayReq(m) => m.content_size(),
            MessageBody::FollowUp(m) => m.content_size(),
            MessageBody::DelayResp(m) => m.content_size(),
        }
    }

    /// The kind of message this body belongs to.
    pub fn content_type(&self) -> (r: ControlField)
        ensures
            r == self.control(),
    {
        match self {
            MessageBody::Sync(_) => ControlField::Sync,
            MessageBody::DelayReq(_) => ControlField::DelayReq,
            MessageBody::FollowUp(_) => ControlField::FollowUp,
            MessageBody::DelayResp(_) => ControlField::DelayResp,
        }
    }

    /// Writes the body at `at`.
    pub fn write_at(&self, buffer: &mut [u8], at: usize)
        requires
            at + self.size() <= old(buffer).len(),
        ensures
            final(buffer)@ == splice(old(buffer)@, at as int, self.to_wire()),
    {
        match self {
            MessageBody::Sync(m) => m.write_at(buffer, at),
            MessageBody::DelayReq(m) => m.write_at(buffer, at),
            MessageBody::FollowUp(m) => m.write_at(buffer, at),
            MessageBody::DelayResp(m) => m.write_at(buffer, at),
        }
    }

    /// Serializes the body at the start of the buffer, returning its size.
    pub fn serialize(&self, buffer: &mut [u8]) -> (r: Result<usize, WireFormatError>)
        requires
            self.size() <= old(buffer).len(),
        ensures
            r == Ok::<usize, WireFormatError>(self.size() as usize),
            final(buffer)@ == splice(old(buffer)@, 0, self.to_wire()),
    {
        self.write_at(buffer, 0);
        Ok(self.wire_size())
    }

    /// Deserializes a body of kind `message_type`, read with `header`, from
    /// the content bytes.
    pub fn deserialize(message_type: ControlField, header: &Header, buffer: &[u8]) -> (r: Result<
        Self,
        WireFormatError,
    >)
        ensures
            r == Self::parse(message_type, *header, buffer@),
    {
        let body = match message_type {
            ControlField::Sync => MessageBody::Sync(SyncOrDelayReqMessage::deserialize_content(*header, buffer)?),
            ControlField::DelayReq => MessageBody::DelayReq(SyncOrDelayReqMessage::deserialize_content(*header, buffer)?),
            ControlField::FollowUp => MessageBody::FollowUp(FollowUpMessage::deserialize_content(buffer)?),
            ControlField::DelayResp => MessageBody::DelayResp(DelayRespMessage::deserialize_content(buffer)?),
        };
        Ok(body)
    }
}

/// The header of a message sent by a port: the defaults of [`Header::new`]
/// with the sender set to the port and the given sequence id.
pub open spec fn spec_base_header(port_identity: PortIdentity, sequence_id: u16) -> Header {
    Header {
        source_uuid: [
            port_identity.clock_identity.0[0],
            port_identity.clock_identity.0[1],
            port_identity.clock_identity.0[2],
            port_identity.clock_identity.0[3],
            port_identity.clock_identity.0[4],
            port_identity.clock_identity.0[5],
        ],
        source_port_id: port_identity.port_number,
        sequence_id,
        ..Header::initial()
    }
}

/// The header of a message sent by the port `port_identity`: the sender is
/// the first six bytes of its clock identity and its port number.
pub fn base_header(_default_ds: &InternalDefaultDS, port_identity: PortIdentity, sequence_id: u16) -> (r: Header)
    ensures
        r == spec_base_header(port_identity, sequence_id),
{
    let ci = port_identity.clock_identity.0;
    Header {
        source_uuid: [ci[0], ci[1], ci[2], ci[3], ci[4], ci[5]],
        source_port_id: port_identity.port_number,
        sequence_id,
        ..Header::new()
    }
}

impl Message {
    /// The byte size on the wire of the message.
    pub open spec fn size(self) -> nat {
        40 + self.body.size()
    }

    /// The bytes that serializing the message writes.
    pub open spec fn to_wire(self) -> Seq<u8> {
        self.header.to_wire(self.body.control()) + self.body.to_wire()
    }

    /// What deserializing the bytes `b` gives.
    pub open spec fn parse(b: Seq<u8>) -> Result<Message, WireFormatError> {
        if b.len() < 40 {
            Err(WireFormatError::BufferTooShort)
        } else {
            match ControlField::from_value(b[32]) {
                None => Err(WireFormatError::EnumConversionError),
                Some(control) => {
                    let header = Header::from_wire(b, 0);
                    match MessageBody::parse(control, header, b.subrange(40, b.len() as int)) {
                        Ok(body) => Ok(Message { header, body }),
                        Err(e) => Err(e),
                    }
                },
            }
        }
    }

    /// The header of the message.
    pub fn header(&self) -> (r: &Header)
        ensures
            *r == self.header,
    {
        &self.header
    }

    /// The byte size on the wire of this message
    pub fn wire_size(&self) -> (r: usize)
        ensures
            r == self.size(),
    {
        self.header.wire_size() + self.body.wire_size()
    }

    /// Serializes the message at the start of the buffer.
    ///
    /// Returns the used buffer size that contains the message.
    pub fn serialize(&self, buffer: &mut [u8]) -> (r: Result<usize, WireFormatError>)
        requires
            self.size() <= old(buffer).len(),
        ensures
            r == Ok::<usize, WireFormatError>(self.size() as usize),
            final(buffer)@ == splice(old(buffer)@, 0, self.to_wire()),
    {
        let control = self.body.content_type();
        let _ = self.header.serialize_header(control, self.body.wire_size(), buffer);
        self.body.write_at(buffer, 40);
        proof {
            lemma_splice_twice(old(buffer)@, 0, self.header.to_wire(control), self.body.to_wire());
        }
        Ok(self.wire_size())
    }

    /// Deserializes a message from the PTP wire format.
    ///
    /// Returns the message or an error.
    pub fn deserialize(buffer: &[u8]) -> (r: Result<Self, WireFormatError>)
        ensures
            r == Self::parse(buffer@),
    {
        let header_data = Header::deserialize_header(buffer)?;
        // Skip the header bytes and only keep the content
        let content_buffer = slice_subrange(buffer, 40, buffer.len());
        let body = MessageBody::deserialize(header_data.control, &header_data.header, content_buffer)?;
        Ok(Message { header: header_data.header, body })
    }
}

/// The delay request that a port sends to its master: the header of
/// [`base_header`], the grandmaster that the master announced, and the
/// instance's own UTC offset, clock variance, steps removed and parent.
pub open spec fn spec_delay_req(
    default_ds: InternalDefaultDS,
    parent_ds: InternalParentDS,
    time_properties_ds: TimePropertiesDS,
    steps_removed: u16,
    grandmaster: GrandmasterPropertiesV1,
    port_identity: PortIdentity,
    sequence_id: u16,
) -> Message {
    let header = spec_base_header(port_identity, sequence_id);
    let parent = parent_ds.parent_port_identity;
    Message {
        header,
        body: MessageBody::DelayReq(SyncOrDelayReqMessage {
            header,
            origin_timestamp: WireTimestampV1 { seconds: 0, nanos: 0 },
            epoch_number: 0,
            current_utc_offset: match time_properties_ds.current_utc_offset {
                Some(offset) => offset,
                None => 0,
            },
            grandmaster,
            sync_interval: 0x7f,
            local_clock_variance: default_ds.clock_quality.offset_scaled_log_variance as i16,
            local_steps_removed: steps_removed,
            local_clock_stratum: 255,
            local_clock_identifier: [0x44, 0x46, 0x4c, 0x54],
            parent_communication_technology: 1,
            parent_uuid: [
                parent.clock_identity.0[0],
                parent.clock_identity.0[1],
                parent.clock_identity.0[2],
                parent.clock_identity.0[3],
                parent.clock_identity.0[4],
                parent.clock_identity.0[5],
            ],
            parent_port_field: parent.port_number,
            estimated_master_variance: 0,
            estimated_master_drift: 0,
            utc_reasonable: time_properties_ds.current_utc_offset is Some,
        }),
    }
}

impl Message {
    /// The delay request that the port `port_identity` sends to its master,
    /// with the sequence id `sequence_id`.
    ///
    /// `grandmaster` is the grandmaster that the master announced in its
    /// sync messages, `steps_removed` the instance's current steps removed.
    /// The local clock variance is the instance's offset scaled log variance
    /// taken as a signed number, the local clock identifier `DFLT`.
    pub fn delay_req(
        default_ds: &InternalDefaultDS,
        parent_ds: &InternalParentDS,
        time_properties_ds: &TimePropertiesDS,
        steps_removed: u16,
        grandmaster: GrandmasterPropertiesV1,
        port_identity: PortIdentity,
        sequence_id: u16,
    ) -> (r: Self)
        ensures
            r == spec_delay_req(
                *default_ds,
                *parent_ds,
                *time_properties_ds,
                steps_removed,
                grandmaster,
                port_identity,
                sequence_id,
            ),
            body_matches_header(r),
    {
        let header = base_header(default_ds, port_identity, sequence_id);
        let parent = parent_ds.parent_port_identity;
        let current_utc_offset = match time_properties_ds.current_utc_offset {
            Some(offset) => offset,
            None => 0,
        };
        let ci = parent.clock_identity.0;
        Message {
            header,
            body: MessageBody::DelayReq(SyncOrDelayReqMessage {
                header,
                origin_timestamp: WireTimestampV1 { seconds: 0, nanos: 0 },
                epoch_number: 0,
                current_utc_offset,
                grandmaster,
                sync_interval: 0x7f,
                local_clock_variance: default_ds.clock_quality.offset_scaled_log_variance as i16,
                local_steps_removed: steps_removed,
                local_clock_stratum: 255,
                local_clock_identifier: [0x44, 0x46, 0x4c, 0x54],
                parent_communication_technology: 1,
                parent_uuid: [ci[0], ci[1], ci[2], ci[3], ci[4], ci[5]],
                parent_port_field: parent.port_number,
                estimated_master_variance: 0,
                estimated_master_drift: 0,
                utc_reasonable: time_properties_ds.current_utc_offset.is_some(),
            }),
        }
    }
}

/// Whether the header fields carried in the body of `m` agree with its
/// header, as they do for every message read from the wire.
pub open spec fn body_matches_header(m: Message) -> bool {
    match m.body {
        MessageBody::Sync(b) | MessageBody::DelayReq(b) => b.header == m.header,
        _ => true,
    }
}

/// A written message reads back as the same message.
///
/// This holds for sync, delay request and delay response messages whose
/// body agrees with their header. It does not hold for follow up
/// messages, whose body is written two bytes before where it is read.
pub proof fn lemma_message_roundtrip(m: Message, b: Seq<u8>)
    requires
        !(m.body is FollowUp),
        body_matches_header(m),
        m.size() <= b.len(),
        b.subrange(0, m.size() as int) == m.to_wire(),
    ensures
        Message::parse(b) == Ok::<Message, WireFormatError>(m),
{
    let control = m.body.control();
    let w = m.to_wire();
    let n = m.size() as int;
    lemma_part(b, 0, w, 0, 40);
    assert(w.subrange(0, 40) =~= m.header.to_wire(control));
    m.header.lemma_roundtrip(control, b, 0);
    ControlField::lemma_roundtrip(control);
    lemma_part(b, 0, w, 40, n - 40);
    assert(w.subrange(40, n) =~= m.body.to_wire());
    let c = b.subrange(40, b.len() as int);
    assert(c.subrange(0, n - 40) =~= b.subrange(40, n));
    match m.body {
        MessageBody::Sync(body) => {
            body.lemma_roundtrip(c, 0);
        },
        MessageBody::DelayReq(body) => {
            body.lemma_roundtrip(c, 0);
        },
        MessageBody::DelayResp(body) => {
            body.lemma_roundtrip(c, 0);
        },
        MessageBody::FollowUp(_) => {},
    }
}

impl TryFrom<u8> for PortType {
    type Error = crate::datastructures::messages::EnumConversionError;

    fn try_from(value: u8) -> (r: Result<Self, Self::Error>) {
        Self::try_from_primitive(value)
    }
}

impl vstd::std_specs::convert::TryFromSpecImpl<u8> for PortType {
    open spec fn obeys_try_from_spec() -> bool {
        true
    }

    open spec fn try_from_spec(v: u8) -> Result<Self, Self::Error> {
        match Self::from_value(v) {
            Some(c) => Ok(c),
            None => Err(crate::datastructures::messages::EnumConversionError),
        }
    }
}

} // verus!
