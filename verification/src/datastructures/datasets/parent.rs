use vstd::prelude::*;

use super::InternalDefaultDS;
use crate::datastructures::common::{ClockIdentity, ClockQuality, PortIdentity};

verus! {

/// The PTP Parent dataset of an instance (IEEE1588-2019 section 8.2.3)
#[derive(Clone, Copy, Debug, Eq, PartialEq)]
pub struct InternalParentDS {
    /// Identity of the port that is the master of this instance.
    pub parent_port_identity: PortIdentity,
    /// Identity of the grandmaster.
    pub grandmaster_identity: ClockIdentity,
    /// Quality of the clock of the grandmaster.
    pub grandmaster_clock_quality: ClockQuality,
    /// Priority 1 of the grandmaster.
    pub grandmaster_priority_1: u8,
    /// Priority 2 of the grandmaster.
    pub grandmaster_priority_2: u8,
}

impl InternalParentDS {
    /// The parent data set of an instance that is its own grandmaster.
    pub fn new(default_ds: InternalDefaultDS) -> (r: Self)
        ensures
            r.parent_port_identity == (PortIdentity {
                clock_identity: default_ds.clock_identity,
                port_number: 0,
            }),
            r.grandmaster_identity == default_ds.clock_identity,
            r.grandmaster_clock_quality == default_ds.clock_quality,
            r.grandmaster_priority_1 == default_ds.priority_1,
            r.grandmaster_priority_2 == default_ds.priority_2,
    {
        InternalParentDS {
            parent_port_identity: PortIdentity {
                clock_identity: default_ds.clock_identity,
                port_number: 0,
            },
            grandmaster_identity: default_ds.clock_identity,
            grandmaster_clock_quality: default_ds.clock_quality,
            grandmaster_priority_1: default_ds.priority_1,
            grandmaster_priority_2: default_ds.priority_2,
        }
    }
}

} // verus!
