use vstd::prelude::*;

use crate::datastructures::{
    common::{ClockIdentity, ClockQuality},
    messages::SdoId,
};

verus! {

/// The PTP Default dataset of an instance (IEEE1588-2019 section 8.2.1)
#[derive(Clone, Copy, Debug, PartialEq, Eq)]
pub struct InternalDefaultDS {
    /// The identity of the clock of the instance.
    pub clock_identity: ClockIdentity,
    /// The number of ports of the instance.
    pub number_ports: u16,
    /// The quality of the clock of the instance.
    pub clock_quality: ClockQuality,
    /// Priority 1 of the instance in master selection.
    pub priority_1: u8,
    /// Priority 2 of the instance in master selection.
    pub priority_2: u8,
    /// Domain number of the instance.
    pub domain_number: u8,
    /// Whether the instance may never be a master.
    pub slave_only: bool,
    /// Standards organization id of the instance's domain.
    pub sdo_id: SdoId,
}

} // verus!
