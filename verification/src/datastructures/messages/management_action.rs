use vstd::prelude::*;

verus! {

/// See: 15.4.1.6
#[derive(Debug, Clone, Copy, PartialEq, Eq)]
pub enum ManagementAction {
    /// Reserved value
    Reserved,
    /// Get request
    GET,
    /// Set request
    SET,
    /// Response
    RESPONSE,
    /// Command
    COMMAND,
    /// Acknowledgement
    ACKNOWLEDGE,
}

impl ManagementAction {
    /// The value of this action on the wire.
    pub open spec fn primitive(self) -> u8 {
        match self {
            ManagementAction::GET => 0x0,
            ManagementAction::SET => 0x1,
            ManagementAction::RESPONSE => 0x2,
            ManagementAction::COMMAND => 0x3,
            ManagementAction::ACKNOWLEDGE => 0x4,
            ManagementAction::Reserved => 0x5,
        }
    }

    /// The action named by a value on the wire; values from 5 on are
    /// reserved.
    pub open spec fn from_value(value: u8) -> ManagementAction {
        match value {
            0x0 => ManagementAction::GET,
            0x1 => ManagementAction::SET,
            0x2 => ManagementAction::RESPONSE,
            0x3 => ManagementAction::COMMAND,
            0x4 => ManagementAction::ACKNOWLEDGE,
            _ => ManagementAction::Reserved,
        }
    }

    /// The value of this action on the wire.
    pub fn to_primitive(&self) -> (r: u8)
        ensures
            r == self.primitive(),
    {
        match self {
            Self::GET => 0x0,
            Self::SET => 0x1,
            Self::RESPONSE => 0x2,
            Self::COMMAND => 0x3,
            Self::ACKNOWLEDGE => 0x4,
            Self::Reserved => 0x5,
        }
    }

    /// The action named by a value on the wire.
    pub fn from_primitive(value: u8) -> (r: Self)
        ensures
            r == Self::from_value(value),
    {
        match value {
            0x0 => Self::GET,
            0x1 => Self::SET,
            0x2 => Self::RESPONSE,
            0x3 => Self::COMMAND,
            0x4 => Self::ACKNOWLEDGE,
            0x5..=0xff => Self::Reserved,
        }
    }

    /// Reading back the value of an action gives the action.
    pub proof fn lemma_roundtrip(a: ManagementAction)
        ensures
            Self::from_value(a.primitive()) == a,
    {
    }
}

} // verus!
