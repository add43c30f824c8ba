use vstd::prelude::*;

use crate::datastructures::{
    wire::{be_i16, be_u16, flag_byte, get_u16, i16_at, lemma_i16_roundtrip, lemma_part, lemma_u16_roundtrip, put_bytes, splice, u16_at},
    WireFormatError,
};

verus! {

/// Priority 1 that a PTP version 1 grandmaster is given when compared with
/// version 2 clocks.
pub const V2_COMPAT_PRIORITY1: u8 = 128;

/// Priority 1 of a PTP version 1 grandmaster that is marked as preferred.
pub const V2_COMPAT_PRIORITY1_PREFERRED: u8 = 64;

/// Priority 2 that a PTP version 1 grandmaster is given when compared with
/// version 2 clocks.
pub const V2_COMPAT_PRIORITY2: u8 = 128;

/// The description of the grandmaster carried in PTP version 1 sync and
/// delay request messages.
#[derive(Debug, Clone, Copy, PartialEq, Eq, Default, PartialOrd, Ord)]
pub struct GrandmasterPropertiesV1 {
    /// Communication technology of the grandmaster.
    pub communication_technology: u8,
    /// Unique identifier of the grandmaster.
    pub clock_uuid: [u8; 6],
    /// Port of the grandmaster.
    pub port_id: u16,
    /// Sequence id of the grandmaster.
    pub sequence_id: u16,
    /// Stratum of the grandmaster clock.
    pub clock_stratum: u8,
    /// Four character identifier of the grandmaster clock.
    pub clock_identifier: [u8; 4],
    /// Variance of the grandmaster clock.
    pub clock_variance: i16,
    /// Whether the grandmaster is preferred.
    pub preferred: bool,
    /// Whether the grandmaster is a boundary clock.
    pub is_boundary_clock: bool,
}

impl GrandmasterPropertiesV1 {
    /// The 28 bytes of these properties on the wire.
    pub open spec fn to_wire(self) -> Seq<u8> {
        seq![0u8, self.communication_technology] + self.clock_uuid@ + be_u16(self.port_id) + be_u16(
            self.sequence_id,
        ) + seq![0u8, 0u8, 0u8, self.clock_stratum] + self.clock_identifier@ + seq![0u8, 0u8]
            + be_i16(self.clock_variance) + seq![
            0u8,
            flag_byte(self.preferred),
            0u8,
            flag_byte(self.is_boundary_clock),
        ]
    }

    /// The properties stored at `at` in `b`.
    pub open spec fn from_wire(b: Seq<u8>, at: int) -> Self {
        GrandmasterPropertiesV1 {
            communication_technology: b[at + 1],
            clock_uuid: [b[at + 2], b[at + 3], b[at + 4], b[at + 5], b[at + 6], b[at + 7]],
            port_id: u16_at(b, at + 8),
            sequence_id: u16_at(b, at + 10),
            clock_stratum: b[at + 15],
            clock_identifier: [b[at + 16], b[at + 17], b[at + 18], b[at + 19]],
            clock_variance: i16_at(b, at + 22),
            preferred: b[at + 25] > 0,
            is_boundary_clock: b[at + 27] > 0,
        }
    }

    /// The 28 bytes of these properties on the wire.
    pub fn to_bytes(&self) -> (r: [u8; 28])
        ensures
            r@ == self.to_wire(),
    {
        let preferred: u8 = if self.preferred { 1 } else { 0 };
        let boundary: u8 = if self.is_boundary_clock { 1 } else { 0 };
        let variance = self.clock_variance as u16;
        let r = [
            0,
            self.communication_technology,
            self.clock_uuid[0],
            self.clock_uuid[1],
            self.clock_uuid[2],
            self.clock_uuid[3],
            self.clock_uuid[4],
            self.clock_uuid[5],
            (self.port_id >> 8u16) as u8,
            self.port_id as u8,
            (self.sequence_id >> 8u16) as u8,
            self.sequence_id as u8,
            0,
            0,
            0,
            self.clock_stratum,
            self.clock_identifier[0],
            self.clock_identifier[1],
            self.clock_identifier[2],
            self.clock_identifier[3],
            0,
            0,
            (variance >> 8u16) as u8,
            variance as u8,
            0,
            preferred,
            0,
            boundary,
        ];
        assert(r@ =~= self.to_wire());
        r
    }

    /// Writes the properties at `at`.
    pub fn write_at(&self, buffer: &mut [u8], at: usize)
        requires
            at + 28 <= old(buffer).len(),
        ensures
            final(buffer)@ == splice(old(buffer)@, at as int, self.to_wire()),
    {
        let bytes = self.to_bytes();
        put_bytes(buffer, at, &bytes);
    }

    /// Reads the properties stored at `at`.
    pub fn read_at(buffer: &[u8], at: usize) -> (r: Self)
        requires
            at + 28 <= buffer.len(),
        ensures
            r == Self::from_wire(buffer@, at as int),
    {
        GrandmasterPropertiesV1 {
            communication_technology: buffer[at + 1],
            clock_uuid: [buffer[at + 2], buffer[at + 3], buffer[at + 4], buffer[at + 5], buffer[at + 6], buffer[at + 7]],
            port_id: get_u16(buffer, at + 8),
            sequence_id: get_u16(buffer, at + 10),
            clock_stratum: buffer[at + 15],
            clock_identifier: [buffer[at + 16], buffer[at + 17], buffer[at + 18], buffer[at + 19]],
            clock_variance: get_u16(buffer, at + 22) as i16,
            preferred: buffer[at + 25] > 0,
            is_boundary_clock: buffer[at + 27] > 0,
        }
    }

    /// Serializes the properties into the first 28 bytes of the buffer.
    pub fn serialize(&self, buffer: &mut [u8]) -> (r: Result<(), WireFormatError>)
        requires
            old(buffer).len() >= 28,
        ensures
            r is Ok,
            final(buffer)@ == splice(old(buffer)@, 0, self.to_wire()),
    {
        self.write_at(buffer, 0);
        Ok(())
    }

    /// Deserializes properties from the first 28 bytes of the buffer.
    pub fn deserialize(buffer: &[u8]) -> (r: Result<Self, WireFormatError>)
        ensures
            buffer@.len() < 28 ==> r == Err::<Self, WireFormatError>(WireFormatError::BufferTooShort),
            buffer@.len() >= 28 ==> r == Ok::<Self, WireFormatError>(Self::from_wire(buffer@, 0)),
    {
        if buffer.len() < 28 {
            Err(WireFormatError::BufferTooShort)
        } else {
            Ok(Self::read_at(buffer, 0))
        }
    }

    /// Reading back written properties gives the properties.
    pub proof fn lemma_roundtrip(self, b: Seq<u8>, at: int)
        requires
            0 <= at,
            at + 28 <= b.len(),
            b.subrange(at, at + 28) == self.to_wire(),
        ensures
            Self::from_wire(b, at) == self,
    {
        let w = self.to_wire();
        assert forall|j: int| 0 <= j < 28 implies #[trigger] b[at + j] == w[j] by {
            assert(b.subrange(at, at + 28)[j] == b[at + j]);
        }
        lemma_part(b, at, w, 8, 2);
        assert(w.subrange(8, 10) =~= be_u16(self.port_id));
        lemma_u16_roundtrip(self.port_id, b, at + 8);
        lemma_part(b, at, w, 10, 2);
        assert(w.subrange(10, 12) =~= be_u16(self.sequence_id));
        lemma_u16_roundtrip(self.sequence_id, b, at + 10);
        lemma_part(b, at, w, 22, 2);
        assert(w.subrange(22, 24) =~= be_i16(self.clock_variance));
        lemma_i16_roundtrip(self.clock_variance, b, at + 22);
        let r = Self::from_wire(b, at);
        assert(b[at + 2] == w[2] && b[at + 3] == w[3] && b[at + 4] == w[4] && b[at + 5] == w[5] && b[at + 6] == w[6] && b[at + 7] == w[7]);
        assert(r.clock_uuid =~= self.clock_uuid);
        assert(b[at + 16] == w[16] && b[at + 17] == w[17] && b[at + 18] == w[18] && b[at + 19] == w[19]);
        assert(r.clock_identifier =~= self.clock_identifier);
        assert(b[at + 1] == w[1] && b[at + 15] == w[15] && b[at + 25] == w[25] && b[at + 27] == w[27]);
    }
}

} // verus!
