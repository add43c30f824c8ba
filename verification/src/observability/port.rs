use vstd::prelude::*;

use crate::datastructures::common::{PortIdentity, TimeInterval};

verus! {

/// Type for `[PortDS].port_state`, see also *IEEE1588-2019 section 8.2.15.3.1
#[derive(Copy, Clone, Debug, Eq, PartialEq)]
#[allow(missing_docs)]
pub enum PortState {
    Initializing,
    Faulty,
    Disabled,
    Listening,
    PreMaster,
    Master,
    Passive,
    Uncalibrated,
    Slave,
}

impl PortState {
    /// The value that stands for the state in the data set (IEEE1588-2019
    /// table 20).
    pub open spec fn value(self) -> u8 {
        match self {
            PortState::Initializing => 1,
            PortState::Faulty => 2,
            PortState::Disabled => 3,
            PortState::Listening => 4,
            PortState::PreMaster => 5,
            PortState::Master => 6,
            PortState::Passive => 7,
            PortState::Uncalibrated => 8,
            PortState::Slave => 9,
        }
    }

    /// The value that stands for the state in the data set (IEEE1588-2019
    /// table 20).
    pub fn to_primitive(self) -> (r: u8)
        ensures
            r == self.value(),
    {
        match self {
            PortState::Initializing => 1,
            PortState::Faulty => 2,
            PortState::Disabled => 3,
            PortState::Listening => 4,
            PortState::PreMaster => 5,
            PortState::Master => 6,
            PortState::Passive => 7,
            PortState::Uncalibrated => 8,
            PortState::Slave => 9,
        }
    }
}

/// Different states stand for different values.
pub proof fn lemma_port_state_value_injective(a: PortState, b: PortState)
    ensures
        a.value() == b.value() ==> a == b,
{
}

/// Type for `[PortDS].delay_mechanism`, with the data of the delay mechanism
/// in use (IEEE1588-2019 section 8.2.15.4.4)
#[derive(Copy, Clone, Debug, Eq, PartialEq)]
#[allow(missing_docs)]
pub enum DelayMechanism {
    E2E {
        /// See *IEEE1588-2019 section 8.2.15.3.2*
        log_min_delay_req_interval: i8,
    },
    P2P {
        /// See *IEEE1588-2019 section 8.2.15.4.5*
        log_min_p_delay_req_interval: i8,
        /// See *IEEE1588-2019 section 8.2.15.3.3*
        mean_link_delay: TimeInterval,
    },
    NoMechanism,
    CommonP2P {
        /// See *IEEE1588-2019 section 8.2.15.3.3*
        mean_link_delay: TimeInterval,
    },
    Special,
}

impl DelayMechanism {
    /// The value that stands for the mechanism in the data set
    /// (IEEE1588-2019 table 21).
    pub open spec fn value(self) -> u8 {
        match self {
            DelayMechanism::E2E { .. } => 1,
            DelayMechanism::P2P { .. } => 2,
            DelayMechanism::NoMechanism => 0xfe,
            DelayMechanism::CommonP2P { .. } => 3,
            DelayMechanism::Special => 4,
        }
    }

    /// The value that stands for the mechanism in the data set
    /// (IEEE1588-2019 table 21).
    pub fn to_primitive(&self) -> (r: u8)
        ensures
            r == self.value(),
    {
        match self {
            DelayMechanism::E2E { .. } => 1,
            DelayMechanism::P2P { .. } => 2,
            DelayMechanism::NoMechanism => 0xfe,
            DelayMechanism::CommonP2P { .. } => 3,
            DelayMechanism::Special => 4,
        }
    }
}

/// A concrete implementation of the PTP Port dataset (IEEE1588-2019 section
/// 8.2.15)
///
/// meanLinkDelay, logMinDelayReqInterval and logMinPDelayReqInterval are
/// exposed through the delay mechanism type when the relevant delay mechanism
/// is in use.
#[derive(Copy, Clone, Debug, Eq, PartialEq)]
pub struct PortDS {
    /// See *IEEE1588-2019 section 8.2.15.2.1*
    pub port_identity: PortIdentity,
    /// See *IEEE1588-2019 section 8.2.15.3.1*
    pub port_state: PortState,
    /// See *IEEE1588-2019 section 8.2.15.4.1*
    pub log_announce_interval: i8,
    /// See *IEEE1588-2019 section 8.2.15.4.2*
    pub announce_receipt_timeout: u8,
    /// See *IEEE1588-2019 section 8.2.15.4.3*
    pub log_sync_interval: i8,
    /// See *IEEE1588-2019 section 8.2.15.4.4*
    pub delay_mechanism: DelayMechanism,
    /// See *IEEE1588-2019 section 8.2.15.4.6*
    pub version_number: u8,
    /// See *IEEE1588-2019 section 8.2.15.4.7*
    pub minor_version_number: u8,
    /// See *IEEE1588-2019 section 8.2.15.4.8*
    pub delay_asymmetry: TimeInterval,
    /// See *IEEE1588-2019 section 8.2.15.5.2*
    pub master_only: bool,
}

} // verus!
