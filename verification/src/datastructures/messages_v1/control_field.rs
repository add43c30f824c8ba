use vstd::prelude::*;

use crate::datastructures::messages::EnumConversionError;

verus! {

/// The kind of a PTP version 1 message (its `control` field).
#[derive(Debug, Clone, Copy, PartialEq, Eq)]
pub enum ControlField {
    /// Sync message
    Sync,
    /// Delay request message
    DelayReq,
    /// Follow up message
    FollowUp,
    /// Delay response message
    DelayResp,
}

impl ControlField {
    /// The value of this field on the wire.
    pub open spec fn primitive(self) -> u8 {
        match self {
            ControlField::Sync => 0x00,
            ControlField::DelayReq => 0x01,
            ControlField::FollowUp => 0x02,
            ControlField::DelayResp => 0x03,
        }
    }

    /// The field named by a value on the wire, if any.
    pub open spec fn from_value(value: u8) -> Option<ControlField> {
        match value {
            0x00 => Some(ControlField::Sync),
            0x01 => Some(ControlField::DelayReq),
            0x02 => Some(ControlField::FollowUp),
            0x03 => Some(ControlField::DelayResp),
            _ => None,
        }
    }

    /// The value of this field on the wire.
    pub fn to_primitive(self) -> (r: u8)
        ensures
            r == self.primitive(),
    {
        match self {
            ControlField::Sync => 0x00,
            ControlField::DelayReq => 0x01,
            ControlField::FollowUp => 0x02,
            ControlField::DelayResp => 0x03,
        }
    }

    /// The field named by a value on the wire.
    pub fn try_from_primitive(value: u8) -> (r: Result<Self, EnumConversionError>)
        ensures
            r == match Self::from_value(value) {
                Some(c) => Ok(c),
                None => Err(EnumConversionError),
            },
    {
        match value {
            0x00 => Ok(ControlField::Sync),
            0x01 => Ok(ControlField::DelayReq),
            0x02 => Ok(ControlField::FollowUp),
            0x03 => Ok(ControlField::DelayResp),
            _ => Err(EnumConversionError),
        }
    }

    /// Reading back the value of a field gives the field.
    pub proof fn lemma_roundtrip(c: ControlField)
        ensures
            Self::from_value(c.primitive()) == Some(c),
    {
    }
}

impl TryFrom<u8> for ControlField {
    type Error = EnumConversionError;

    fn try_from(value: u8) -> (r: Result<Self, Self::Error>) {
        Self::try_from_primitive(value)
    }
}

impl vstd::std_specs::convert::TryFromSpecImpl<u8> for ControlField {
    open spec fn obeys_try_from_spec() -> bool {
        true
    }

    open spec fn try_from_spec(v: u8) -> Result<Self, Self::Error> {
        match Self::from_value(v) {
            Some(c) => Ok(c),
            None => Err(EnumConversionError),
        }
    }
}

} // verus!
