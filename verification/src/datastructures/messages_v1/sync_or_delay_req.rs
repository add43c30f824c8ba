use vstd::prelude::*;

use super::Header;
use crate::datastructures::{
    common::{GrandmasterPropertiesV1, LeapIndicator, TimeSource, WireTimestampV1},
    datasets::TimePropertiesDS,
    wire::{be_i16, be_i32, be_u16, flag_byte, get_u16, get_u32, i16_at, i32_at, lemma_i16_roundtrip, lemma_i32_roundtrip, lemma_part, lemma_u16_roundtrip, put_bytes, splice, u16_at},
    WireFormatError,
};

verus! {

/// The body of a PTP version 1 sync or delay request message.
#[derive(Debug, Clone, Copy, PartialEq, Eq)]
pub struct SyncOrDelayReqMessage {
    /// The header of the message the body was read with.
    pub header: Header,
    /// Time at which the message was sent.
    pub origin_timestamp: WireTimestampV1,
    /// Epoch number of the sender.
    pub epoch_number: u16,
    /// Offset of UTC to TAI in seconds.
    pub current_utc_offset: i16,
    /// The grandmaster of the sender.
    pub grandmaster: GrandmasterPropertiesV1,
    /// 2-log of the sync interval in seconds.
    pub sync_interval: i8,
    /// Variance of the clock of the sender.
    pub local_clock_variance: i16,
    /// Number of steps between the sender and its grandmaster.
    pub local_steps_removed: u16,
    /// Stratum of the clock of the sender.
    pub local_clock_stratum: u8,
    /// Identifier of the clock of the sender.
    pub local_clock_identifier: [u8; 4],
    /// Communication technology of the parent of the sender.
    pub parent_communication_technology: u8,
    /// Unique identifier of the parent of the sender.
    pub parent_uuid: [u8; 6],
    /// Port of the parent of the sender.
    pub parent_port_field: u16,
    /// Estimated variance of the master.
    pub estimated_master_variance: i16,
    /// Estimated drift of the master.
    pub estimated_master_drift: i32,
    /// Whether `current_utc_offset` holds a valid value.
    pub utc_reasonable: bool,
}

/// The body of a PTP version 1 sync message.
pub type SyncMessage = SyncOrDelayReqMessage;

/// The body of a PTP version 1 delay request message.
pub type DelayReqMessage = SyncOrDelayReqMessage;

/// The four character identifiers of grandmaster clocks that keep the PTP
/// timescale.
pub open spec fn is_ptp_clock_identifier(id: [u8; 4]) -> bool {
    id@ == seq![0x41u8, 0x54u8, 0x4fu8, 0x4du8]  // "ATOM"
     || id@ == seq![0x47u8, 0x50u8, 0x53u8, 0u8]  // "GPS\0"
     || id@ == seq![0x4eu8, 0x54u8, 0x50u8, 0u8]  // "NTP\0"
     || id@ == seq![0x48u8, 0x41u8, 0x4eu8, 0x44u8]  // "HAND"

}

fn identifier_is(id: [u8; 4], a: u8, b: u8, c: u8, d: u8) -> (r: bool)
    ensures
        r == (id@ == seq![a, b, c, d]),
{
    let r = id[0] == a && id[1] == b && id[2] == c && id[3] == d;
    assert(r == (id@ =~= seq![a, b, c, d]));
    r
}

impl SyncOrDelayReqMessage {
    /// The 84 bytes of this body on the wire.
    pub open spec fn to_wire(self) -> Seq<u8> {
        self.origin_timestamp.to_wire() + be_u16(self.epoch_number) + be_i16(self.current_utc_offset)
            + self.grandmaster.to_wire() + seq![0u8, 0u8, 0u8, self.sync_interval as u8, 0u8, 0u8]
            + be_i16(self.local_clock_variance) + seq![0u8, 0u8] + be_u16(self.local_steps_removed)
            + seq![0u8, 0u8, 0u8, self.local_clock_stratum] + self.local_clock_identifier@ + seq![
            0u8,
            self.parent_communication_technology,
        ] + self.parent_uuid@ + seq![0u8, 0u8] + be_u16(self.parent_port_field) + seq![0u8, 0u8]
            + be_i16(self.estimated_master_variance) + be_i32(self.estimated_master_drift) + seq![
            0u8,
            0u8,
            0u8,
            flag_byte(self.utc_reasonable),
        ]
    }

    /// The body stored at `at` in `b`, read with `header`.
    pub open spec fn from_wire(header: Header, b: Seq<u8>, at: int) -> Self {
        SyncOrDelayReqMessage {
            header,
            origin_timestamp: WireTimestampV1::from_wire(b, at),
            epoch_number: u16_at(b, at + 8),
            current_utc_offset: i16_at(b, at + 10),
            grandmaster: GrandmasterPropertiesV1::from_wire(b, at + 12),
            sync_interval: b[at + 43] as i8,
            local_clock_variance: i16_at(b, at + 46),
            local_steps_removed: u16_at(b, at + 50),
            local_clock_stratum: b[at + 55],
            local_clock_identifier: [b[at + 56], b[at + 57], b[at + 58], b[at + 59]],
            parent_communication_technology: b[at + 61],
            parent_uuid: [b[at + 62], b[at + 63], b[at + 64], b[at + 65], b[at + 66], b[at + 67]],
            parent_port_field: u16_at(b, at + 70),
            estimated_master_variance: i16_at(b, at + 74),
            estimated_master_drift: i32_at(b, at + 76),
            utc_reasonable: b[at + 83] > 0,
        }
    }

    /// The byte size on the wire of the body.
    pub fn content_size(&self) -> (r: usize)
        ensures
            r == 84,
    {
        84
    }

    /// The 84 bytes of this body on the wire.
    pub fn to_bytes(&self) -> (r: [u8; 84])
        ensures
            r@ == self.to_wire(),
    {
        let ts = self.origin_timestamp;
        let gm = self.grandmaster.to_bytes();
        let utc = self.current_utc_offset as u16;
        let variance = self.local_clock_variance as u16;
        let emv = self.estimated_master_variance as u16;
        let drift = self.estimated_master_drift as u32;
        let utc_reasonable: u8 = if self.utc_reasonable { 1 } else { 0 };
        let r = [
            (ts.seconds >> 24u32) as u8,
            (ts.seconds >> 16u32) as u8,
            (ts.seconds >> 8u32) as u8,
            ts.seconds as u8,
            (ts.nanos >> 24u32) as u8,
            (ts.nanos >> 16u32) as u8,
            (ts.nanos >> 8u32) as u8,
            ts.nanos as u8,
            (self.epoch_number >> 8u16) as u8,
            self.epoch_number as u8,
            (utc >> 8u16) as u8,
            utc as u8,
            gm[0], gm[1], gm[2], gm[3], gm[4], gm[5], gm[6], gm[7], gm[8], gm[9], gm[10], gm[11], gm[12],
            gm[13], gm[14], gm[15], gm[16], gm[17], gm[18], gm[19], gm[20], gm[21], gm[22], gm[23],
            gm[24], gm[25], gm[26], gm[27],
            0,
            0,
            0,
            self.sync_interval as u8,
            0,
            0,
            (variance >> 8u16) as u8,
            variance as u8,
            0,
            0,
            (self.local_steps_removed >> 8u16) as u8,
            self.local_steps_removed as u8,
            0,
            0,
            0,
            self.local_clock_stratum,
            self.local_clock_identifier[0],
            self.local_clock_identifier[1],
            self.local_clock_identifier[2],
            self.local_clock_identifier[3],
            0,
            self.parent_communication_technology,
            self.parent_uuid[0],
            self.parent_uuid[1],
            self.parent_uuid[2],
            self.parent_uuid[3],
            self.parent_uuid[4],
            self.parent_uuid[5],
            0,
            0,
            (self.parent_port_field >> 8u16) as u8,
            self.parent_port_field as u8,
            0,
            0,
            (emv >> 8u16) as u8,
            emv as u8,
            (drift >> 24u32) as u8,
            (drift >> 16u32) as u8,
            (drift >> 8u32) as u8,
            drift as u8,
            0,
            0,
            0,
            utc_reasonable,
        ];
        assert(r@ =~= self.to_wire());
        r
    }

    /// Writes the body at `at`.
    pub fn write_at(&self, buffer: &mut [u8], at: usize)
        requires
            at + 84 <= old(buffer).len(),
        ensures
            final(buffer)@ == splice(old(buffer)@, at as int, self.to_wire()),
    {
        let bytes = self.to_bytes();
        put_bytes(buffer, at, &bytes);
    }

    /// Serializes the body into the first 84 bytes of the buffer; bytes
    /// without a field are zero.
    pub fn serialize_content(&self, buffer: &mut [u8]) -> (r: Result<(), WireFormatError>)
        requires
            old(buffer).len() >= 84,
        ensures
            r is Ok,
            final(buffer)@ == splice(old(buffer)@, 0, self.to_wire()),
    {
        self.write_at(buffer, 0);
        Ok(())
    }

    /// Deserializes a body, read with `header`, from the first 84 bytes of
    /// the buffer.
    pub fn deserialize_content(header: Header, buffer: &[u8]) -> (r: Result<Self, WireFormatError>)
        ensures
            buffer@.len() < 84 ==> r == Err::<Self, WireFormatError>(WireFormatError::BufferTooShort),
            buffer@.len() >= 84 ==> r == Ok::<Self, WireFormatError>(Self::from_wire(header, buffer@, 0)),
    {
        if buffer.len() < 84 {
            return Err(WireFormatError::BufferTooShort);
        }
        Ok(Self {
            header,
            origin_timestamp: WireTimestampV1::read_at(buffer, 0),
            epoch_number: get_u16(buffer, 8),
            current_utc_offset: get_u16(buffer, 10) as i16,
            grandmaster: GrandmasterPropertiesV1::read_at(buffer, 12),
            sync_interval: buffer[43] as i8,
            local_clock_variance: get_u16(buffer, 46) as i16,
            local_steps_removed: get_u16(buffer, 50),
            local_clock_stratum: buffer[55],
            local_clock_identifier: [buffer[56], buffer[57], buffer[58], buffer[59]],
            parent_communication_technology: buffer[61],
            parent_uuid: [buffer[62], buffer[63], buffer[64], buffer[65], buffer[66], buffer[67]],
            parent_port_field: get_u16(buffer, 70),
            estimated_master_variance: get_u16(buffer, 74) as i16,
            estimated_master_drift: get_u32(buffer, 76) as i32,
            utc_reasonable: buffer[83] > 0,
        })
    }

    /// The time properties announced by the sender.
    pub open spec fn announced_time_properties(self) -> TimePropertiesDS {
        TimePropertiesDS {
            current_utc_offset: if self.utc_reasonable {
                Some(self.current_utc_offset)
            } else {
                None
            },
            leap_indicator: if self.header.leap59 {
                LeapIndicator::Leap59
            } else if self.header.leap61 {
                LeapIndicator::Leap61
            } else {
                LeapIndicator::NoLeap
            },
            time_traceable: false,
            frequency_traceable: false,
            ptp_timescale: is_ptp_clock_identifier(self.grandmaster.clock_identifier),
            time_source: TimeSource::InternalOscillator,
        }
    }

    /// The time properties announced by the sender: leap second flags from
    /// the header, the UTC offset when it is marked reasonable, and the PTP
    /// timescale when the grandmaster clock is one of `ATOM`, `GPS`, `NTP`
    /// and `HAND`.
    pub fn time_properties(&self) -> (r: TimePropertiesDS)
        ensures
            r == self.announced_time_properties(),
    {
        let leap_indicator = if self.header.leap59 {
            LeapIndicator::Leap59
        } else if self.header.leap61 {
            LeapIndicator::Leap61
        } else {
            LeapIndicator::NoLeap
        };

        let current_utc_offset = if self.utc_reasonable {
            Some(self.current_utc_offset)
        } else {
            None
        };

        let id = self.grandmaster.clock_identifier;
        let ptp_timescale = identifier_is(id, 0x41, 0x54, 0x4f, 0x4d) || identifier_is(id, 0x47, 0x50, 0x53, 0)
            || identifier_is(id, 0x4e, 0x54, 0x50, 0) || identifier_is(id, 0x48, 0x41, 0x4e, 0x44);

        TimePropertiesDS {
            current_utc_offset,
            leap_indicator,
            time_traceable: false,
            frequency_traceable: false,
            ptp_timescale,
            time_source: TimeSource::InternalOscillator,
        }
    }

    /// Reading back a written body, with the header it was written with,
    /// gives the body.
    pub proof fn lemma_roundtrip(self, b: Seq<u8>, at: int)
        requires
            0 <= at,
            at + 84 <= b.len(),
            b.subrange(at, at + 84) == self.to_wire(),
        ensures
            Self::from_wire(self.header, b, at) == self,
    {
        let w = self.to_wire();
        assert forall|j: int| 0 <= j < 84 implies #[trigger] b[at + j] == w[j] by {
            assert(b.subrange(at, at + 84)[j] == b[at + j]);
        }
        lemma_part(b, at, w, 0, 8);
        assert(w.subrange(0, 8) =~= self.origin_timestamp.to_wire());
        self.origin_timestamp.lemma_roundtrip(b, at);
        lemma_part(b, at, w, 8, 2);
        assert(w.subrange(8, 10) =~= be_u16(self.epoch_number));
        lemma_u16_roundtrip(self.epoch_number, b, at + 8);
        lemma_part(b, at, w, 10, 2);
        assert(w.subrange(10, 12) =~= be_i16(self.current_utc_offset));
        lemma_i16_roundtrip(self.current_utc_offset, b, at + 10);
        lemma_part(b, at, w, 12, 28);
        assert(w.subrange(12, 40) =~= self.grandmaster.to_wire());
        self.grandmaster.lemma_roundtrip(b, at + 12);
        lemma_part(b, at, w, 46, 2);
        assert(w.subrange(46, 48) =~= be_i16(self.local_clock_variance));
        lemma_i16_roundtrip(self.local_clock_variance, b, at + 46);
        lemma_part(b, at, w, 50, 2);
        assert(w.subrange(50, 52) =~= be_u16(self.local_steps_removed));
        lemma_u16_roundtrip(self.local_steps_removed, b, at + 50);
        lemma_part(b, at, w, 70, 2);
        assert(w.subrange(70, 72) =~= be_u16(self.parent_port_field));
        lemma_u16_roundtrip(self.parent_port_field, b, at + 70);
        lemma_part(b, at, w, 74, 2);
        assert(w.subrange(74, 76) =~= be_i16(self.estimated_master_variance));
        lemma_i16_roundtrip(self.estimated_master_variance, b, at + 74);
        lemma_part(b, at, w, 76, 4);
        assert(w.subrange(76, 80) =~= be_i32(self.estimated_master_drift));
        lemma_i32_roundtrip(self.estimated_master_drift, b, at + 76);
        let r = Self::from_wire(self.header, b, at);
        assert(b[at + 43] == w[43] && b[at + 55] == w[55] && b[at + 61] == w[61] && b[at + 83] == w[83]);
        let si = self.sync_interval;
        assert((si as u8) as i8 == si) by (bit_vector);
        assert forall|i: int| 0 <= i < 4 implies r.local_clock_identifier[i] == self.local_clock_identifier[i] by {
            assert(b[at + 56 + i] == w[56 + i]);
        }
        assert(r.local_clock_identifier =~= self.local_clock_identifier);
        assert forall|i: int| 0 <= i < 6 implies r.parent_uuid[i] == self.parent_uuid[i] by {
            assert(b[at + 62 + i] == w[62 + i]);
        }
        assert(r.parent_uuid =~= self.parent_uuid);
    }
}

} // verus!
