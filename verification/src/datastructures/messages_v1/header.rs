use vstd::prelude::*;

use super::{control_field::ControlField, PortType};
use crate::datastructures::{
    wire::{be_u16, flag_byte, get_u16, lemma_part, lemma_u16_roundtrip, put_bytes, splice, u16_at},
    WireFormatError,
};

verus! {

/// The header of a PTP version 1 message.
#[derive(Debug, Clone, Copy, PartialEq, Eq)]
pub struct Header {
    /// Version of the protocol (1).
    pub version_ptp: u16,
    /// Version of the network layer (1).
    pub version_network: u16,
    /// Name of the subdomain the message belongs to.
    pub subdomain: [u8; 16],
    /// Communication technology of the sender.
    pub source_communication_technology: u8,
    /// Unique identifier of the sender.
    pub source_uuid: [u8; 6],
    /// Port of the sender.
    pub source_port_id: u16,
    /// Sequence id of the message.
    pub sequence_id: u16,
    /// The last minute of this UTC day will have 61 seconds.
    pub leap61: bool,
    /// The last minute of this UTC day will have 59 seconds.
    pub leap59: bool,
    /// The sender is a boundary clock.
    pub ptp_boundary_clock: bool,
    /// The sender sends follow up messages.
    pub ptp_assist: bool,
    /// The sender is synchronized to an external source.
    pub ptp_ext_sync: bool,
    /// The sender sends parent statistics.
    pub parent_stats: bool,
    /// The sender sends syncs in bursts.
    pub ptp_sync_burst: bool,
}

/// A header as read from the wire, with the kind of the message.
#[derive(Debug, Clone, Copy, PartialEq, Eq)]
pub struct DeserializedHeader {
    /// The header fields.
    pub header: Header,
    /// The kind of the message.
    pub control: ControlField,
}

/// The flag byte of a header: bit `k` holds the `k`-th flag.
pub open spec fn flags_byte(
    leap61: bool,
    leap59: bool,
    boundary: bool,
    assist: bool,
    ext_sync: bool,
    parent_stats: bool,
    burst: bool,
) -> u8 {
    flag_byte(leap61) | (flag_byte(leap59) << 1u8) | (flag_byte(boundary) << 2u8) | (flag_byte(
        assist,
    ) << 3u8) | (flag_byte(ext_sync) << 4u8) | (flag_byte(parent_stats) << 5u8) | (flag_byte(burst)
        << 6u8)
}

/// Whether bit `k` of `b` is set.
pub open spec fn bit_set(b: u8, k: u8) -> bool {
    b & (1u8 << k) > 0
}

fn flag(b: bool) -> (r: u8)
    ensures
        r == flag_byte(b),
{
    if b {
        1
    } else {
        0
    }
}

proof fn lemma_flags(x0: u8, x1: u8, x2: u8, x3: u8, x4: u8, x5: u8, x6: u8)
    requires
        x0 <= 1,
        x1 <= 1,
        x2 <= 1,
        x3 <= 1,
        x4 <= 1,
        x5 <= 1,
        x6 <= 1,
    ensures
        ({
            let f = x0 | (x1 << 1u8) | (x2 << 2u8) | (x3 << 3u8) | (x4 << 4u8) | (x5 << 5u8) | (x6 << 6u8);
            &&& (f & (1u8 << 0u8) > 0) == (x0 == 1)
            &&& (f & (1u8 << 1u8) > 0) == (x1 == 1)
            &&& (f & (1u8 << 2u8) > 0) == (x2 == 1)
            &&& (f & (1u8 << 3u8) > 0) == (x3 == 1)
            &&& (f & (1u8 << 4u8) > 0) == (x4 == 1)
            &&& (f & (1u8 << 5u8) > 0) == (x5 == 1)
            &&& (f & (1u8 << 6u8) > 0) == (x6 == 1)
        }),
{
    assert({
        let f = x0 | (x1 << 1u8) | (x2 << 2u8) | (x3 << 3u8) | (x4 << 4u8) | (x5 << 5u8) | (x6 << 6u8);
        &&& (f & (1u8 << 0u8) > 0) == (x0 == 1)
        &&& (f & (1u8 << 1u8) > 0) == (x1 == 1)
        &&& (f & (1u8 << 2u8) > 0) == (x2 == 1)
        &&& (f & (1u8 << 3u8) > 0) == (x3 == 1)
        &&& (f & (1u8 << 4u8) > 0) == (x4 == 1)
        &&& (f & (1u8 << 5u8) > 0) == (x5 == 1)
        &&& (f & (1u8 << 6u8) > 0) == (x6 == 1)
    }) by (bit_vector)
        requires
            x0 <= 1,
            x1 <= 1,
            x2 <= 1,
            x3 <= 1,
            x4 <= 1,
            x5 <= 1,
            x6 <= 1,
    ;
}

impl Header {
    /// The flag byte of this header.
    pub open spec fn flags(self) -> u8 {
        flags_byte(
            self.leap61,
            self.leap59,
            self.ptp_boundary_clock,
            self.ptp_assist,
            self.ptp_ext_sync,
            self.parent_stats,
            self.ptp_sync_burst,
        )
    }

    /// The 40 bytes of this header on the wire, for a message of kind
    /// `control`.
    pub open spec fn to_wire(self, control: ControlField) -> Seq<u8> {
        be_u16(self.version_ptp) + be_u16(self.version_network) + self.subdomain@ + seq![
            PortType::of_control(control).primitive(),
            self.source_communication_technology,
        ] + self.source_uuid@ + be_u16(self.source_port_id) + be_u16(self.sequence_id) + seq![
            control.primitive(),
            0u8,
            0u8,
            self.flags(),
            0u8,
            0u8,
            0u8,
            0u8,
        ]
    }

    /// The header fields stored at `at` in `b`.
    pub open spec fn from_wire(b: Seq<u8>, at: int) -> Header {
        Header {
            version_ptp: u16_at(b, at),
            version_network: u16_at(b, at + 2),
            subdomain: [
                b[at + 4],
                b[at + 5],
                b[at + 6],
                b[at + 7],
                b[at + 8],
                b[at + 9],
                b[at + 10],
                b[at + 11],
                b[at + 12],
                b[at + 13],
                b[at + 14],
                b[at + 15],
                b[at + 16],
                b[at + 17],
                b[at + 18],
                b[at + 19],
            ],
            source_communication_technology: b[at + 21],
            source_uuid: [b[at + 22], b[at + 23], b[at + 24], b[at + 25], b[at + 26], b[at + 27]],
            source_port_id: u16_at(b, at + 28),
            sequence_id: u16_at(b, at + 30),
            leap61: bit_set(b[at + 35], 0),
            leap59: bit_set(b[at + 35], 1),
            ptp_boundary_clock: bit_set(b[at + 35], 2),
            ptp_assist: bit_set(b[at + 35], 3),
            ptp_ext_sync: bit_set(b[at + 35], 4),
            parent_stats: bit_set(b[at + 35], 5),
            ptp_sync_burst: bit_set(b[at + 35], 6),
        }
    }

    /// The header of a version 1 message from this node before the sender
    /// fields are filled in.
    pub open spec fn initial() -> Header {
        Header {
            version_ptp: 1,
            version_network: 1,
            subdomain: [0x5fu8, 0x44u8, 0x46u8, 0x4cu8, 0x54u8, 0u8, 0u8, 0u8, 0u8, 0u8, 0u8, 0u8, 0u8, 0u8, 0u8, 0u8],
            source_communication_technology: 1,
            source_uuid: [0u8, 0u8, 0u8, 0u8, 0u8, 0u8],
            source_port_id: 0,
            sequence_id: 0,
            leap61: false,
            leap59: false,
            ptp_boundary_clock: false,
            ptp_assist: false,
            ptp_ext_sync: false,
            parent_stats: false,
            ptp_sync_burst: false,
        }
    }

    /// A header of version 1 in the default subdomain `_DFLT`.
    pub fn new() -> (r: Self)
        ensures
            r == Self::initial(),
    {
        Self {
            version_ptp: 1,
            version_network: 1,
            subdomain: [0x5f, 0x44, 0x46, 0x4c, 0x54, 0, 0, 0, 0, 0, 0, 0, 0, 0, 0, 0], // "_DFLT"
            source_communication_technology: 1,
            source_uuid: [0, 0, 0, 0, 0, 0],
            source_port_id: 0,
            sequence_id: 0,
            leap59: false,
            leap61: false,
            ptp_boundary_clock: false,
            ptp_assist: false,
            ptp_ext_sync: false,
            parent_stats: false,
            ptp_sync_burst: false,
        }
    }

    /// The byte size on the wire of a header.
    pub fn wire_size(&self) -> (r: usize)
        ensures
            r == 40,
    {
        40
    }

    /// The 40 bytes of this header on the wire, for a message of kind
    /// `control`.
    pub fn to_bytes(&self, control: ControlField) -> (r: [u8; 40])
        ensures
            r@ == self.to_wire(control),
    {
        let port_type = match control {
            ControlField::Sync | ControlField::DelayReq => PortType::Event,
            _ => PortType::General,
        };
        let mut flags: u8 = 0;
        flags |= flag(self.leap61);
        flags |= flag(self.leap59) << 1u8;
        flags |= flag(self.ptp_boundary_clock) << 2u8;
        flags |= flag(self.ptp_assist) << 3u8;
        flags |= flag(self.ptp_ext_sync) << 4u8;
        flags |= flag(self.parent_stats) << 5u8;
        flags |= flag(self.ptp_sync_burst) << 6u8;
        proof {
            let x0 = flag_byte(self.leap61);
            let x1 = flag_byte(self.leap59);
            let x2 = flag_byte(self.ptp_boundary_clock);
            let x3 = flag_byte(self.ptp_assist);
            let x4 = flag_byte(self.ptp_ext_sync);
            let x5 = flag_byte(self.parent_stats);
            let x6 = flag_byte(self.ptp_sync_burst);
            assert(0u8 | x0 | (x1 << 1u8) | (x2 << 2u8) | (x3 << 3u8) | (x4 << 4u8) | (x5 << 5u8) | (
            x6 << 6u8) == x0 | (x1 << 1u8) | (x2 << 2u8) | (x3 << 3u8) | (x4 << 4u8) | (x5 << 5u8)
                | (x6 << 6u8)) by (bit_vector);
        }
        let r = [
            (self.version_ptp >> 8u16) as u8,
            self.version_ptp as u8,
            (self.version_network >> 8u16) as u8,
            self.version_network as u8,
            self.subdomain[0],
            self.subdomain[1],
            self.subdomain[2],
            self.subdomain[3],
            self.subdomain[4],
            self.subdomain[5],
            self.subdomain[6],
            self.subdomain[7],
            self.subdomain[8],
            self.subdomain[9],
            self.subdomain[10],
            self.subdomain[11],
            self.subdomain[12],
            self.subdomain[13],
            self.subdomain[14],
            self.subdomain[15],
            port_type.to_primitive(),
            self.source_communication_technology,
            self.source_uuid[0],
            self.source_uuid[1],
            self.source_uuid[2],
            self.source_uuid[3],
            self.source_uuid[4],
            self.source_uuid[5],
            (self.source_port_id >> 8u16) as u8,
            self.source_port_id as u8,
            (self.sequence_id >> 8u16) as u8,
            self.sequence_id as u8,
            control.to_primitive(),
            0,
            0,
            flags,
            0,
            0,
            0,
            0,
        ];
        assert(r@ =~= self.to_wire(control));
        r
    }

    /// Writes the header of a message of kind `control` into the first 40
    /// bytes of the buffer.
    pub fn serialize_header(
        &self,
        control: ControlField,
        _content_length: usize,
        buffer: &mut [u8],
    ) -> (r: Result<(), WireFormatError>)
        requires
            old(buffer).len() >= 40,
        ensures
            r is Ok,
            final(buffer)@ == splice(old(buffer)@, 0, self.to_wire(control)),
    {
        let bytes = self.to_bytes(control);
        put_bytes(buffer, 0, &bytes);
        Ok(())
    }

    /// Reads the header at the start of the buffer.
    pub fn deserialize_header(buffer: &[u8]) -> (r: Result<DeserializedHeader, WireFormatError>)
        ensures
            buffer@.len() < 40 ==> r == Err::<DeserializedHeader, WireFormatError>(
                WireFormatError::BufferTooShort,
            ),
            buffer@.len() >= 40 ==> match ControlField::from_value(buffer@[32]) {
                None => r == Err::<DeserializedHeader, WireFormatError>(
                    WireFormatError::EnumConversionError,
                ),
                Some(control) => r == Ok::<DeserializedHeader, WireFormatError>(
                    DeserializedHeader { header: Self::from_wire(buffer@, 0), control },
                ),
            },
    {
        if buffer.len() < 40 {
            return Err(WireFormatError::BufferTooShort);
        }
        let header = Self {
            version_ptp: get_u16(buffer, 0),
            version_network: get_u16(buffer, 2),
            subdomain: [
                buffer[4],
                buffer[5],
                buffer[6],
                buffer[7],
                buffer[8],
                buffer[9],
                buffer[10],
                buffer[11],
                buffer[12],
                buffer[13],
                buffer[14],
                buffer[15],
                buffer[16],
                buffer[17],
                buffer[18],
                buffer[19],
            ],
            source_communication_technology: buffer[21],
            source_uuid: [buffer[22], buffer[23], buffer[24], buffer[25], buffer[26], buffer[27]],
            source_port_id: get_u16(buffer, 28),
            sequence_id: get_u16(buffer, 30),
            leap61: (buffer[35] & (1u8 << 0u8)) > 0,
            leap59: (buffer[35] & (1u8 << 1u8)) > 0,
            ptp_boundary_clock: (buffer[35] & (1u8 << 2u8)) > 0,
            ptp_assist: (buffer[35] & (1u8 << 3u8)) > 0,
            ptp_ext_sync: (buffer[35] & (1u8 << 4u8)) > 0,
            parent_stats: (buffer[35] & (1u8 << 5u8)) > 0,
            ptp_sync_burst: (buffer[35] & (1u8 << 6u8)) > 0,
        };
        match ControlField::try_from_primitive(buffer[32]) {
            Ok(control) => Ok(DeserializedHeader { header, control }),
            Err(_) => Err(WireFormatError::EnumConversionError),
        }
    }

    /// Reading back a written header gives the header and the kind of the
    /// message.
    pub proof fn lemma_roundtrip(self, control: ControlField, b: Seq<u8>, at: int)
        requires
            0 <= at,
            at + 40 <= b.len(),
            b.subrange(at, at + 40) == self.to_wire(control),
        ensures
            Self::from_wire(b, at) == self,
            ControlField::from_value(b[at + 32]) == Some(control),
    {
        let w = self.to_wire(control);
        assert forall|j: int| 0 <= j < 40 implies #[trigger] b[at + j] == w[j] by {
            assert(b.subrange(at, at + 40)[j] == b[at + j]);
        }
        lemma_part(b, at, w, 0, 2);
        assert(w.subrange(0, 2) =~= be_u16(self.version_ptp));
        lemma_u16_roundtrip(self.version_ptp, b, at);
        lemma_part(b, at, w, 2, 2);
        assert(w.subrange(2, 4) =~= be_u16(self.version_network));
        lemma_u16_roundtrip(self.version_network, b, at + 2);
        lemma_part(b, at, w, 28, 2);
        assert(w.subrange(28, 30) =~= be_u16(self.source_port_id));
        lemma_u16_roundtrip(self.source_port_id, b, at + 28);
        lemma_part(b, at, w, 30, 2);
        assert(w.subrange(30, 32) =~= be_u16(self.sequence_id));
        lemma_u16_roundtrip(self.sequence_id, b, at + 30);
        let r = Self::from_wire(b, at);
        assert forall|i: int| 0 <= i < 16 implies r.subdomain[i] == self.subdomain[i] by {
            assert(b[at + 4 + i] == w[4 + i]);
        }
        assert(r.subdomain =~= self.subdomain);
        assert forall|i: int| 0 <= i < 6 implies r.source_uuid[i] == self.source_uuid[i] by {
            assert(b[at + 22 + i] == w[22 + i]);
        }
        assert(r.source_uuid =~= self.source_uuid);
        assert(b[at + 21] == w[21] && b[at + 32] == w[32] && b[at + 35] == w[35]);
        lemma_flags(
            flag_byte(self.leap61),
            flag_byte(self.leap59),
            flag_byte(self.ptp_boundary_clock),
            flag_byte(self.ptp_assist),
            flag_byte(self.ptp_ext_sync),
            flag_byte(self.parent_stats),
            flag_byte(self.ptp_sync_burst),
        );
    }
}

impl Default for Header {
    fn default() -> (r: Self)
        ensures
            r == Header::initial(),
    {
        Self::new()
    }
}

} // verus!
