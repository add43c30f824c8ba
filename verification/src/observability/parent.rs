use vstd::prelude::*;

use crate::config::{ClockIdentity, ClockQuality};
use crate::datastructures::{common::PortIdentity, datasets::InternalParentDS};

verus! {

/// A concrete implementation of the PTP Parent dataset (IEEE1588-2019 section
/// 8.2.3)
///
/// These fields aren't implemented, because they are currently unused:
/// - parentStats
/// - observedParentOffsetScaledLogVariance
/// - observedParentClockPhaseChangeRate
#[derive(Copy, Clone, Debug, Eq, PartialEq)]
pub struct ParentDS {
    /// See *IEEE1588-2019 section 8.2.3.2*.
    pub parent_port_identity: PortIdentity,
    /// See *IEEE1588-2019 section 8.2.3.6*.
    pub grandmaster_identity: ClockIdentity,
    /// See *IEEE1588-2019 section 8.2.3.7*.
    pub grandmaster_clock_quality: ClockQuality,
    /// See *IEEE1588-2019 section 8.2.3.8*.
    pub grandmaster_priority_1: u8,
    /// See *IEEE1588-2019 section 8.2.3.9*.
    pub grandmaster_priority_2: u8,
}

/// The observable parent data set of an instance's internal one: the same
/// fields, field by field.
pub open spec fn parent_ds_of(v: InternalParentDS) -> ParentDS {
    ParentDS {
        parent_port_identity: v.parent_port_identity,
        grandmaster_identity: v.grandmaster_identity,
        grandmaster_clock_quality: v.grandmaster_clock_quality,
        grandmaster_priority_1: v.grandmaster_priority_1,
        grandmaster_priority_2: v.grandmaster_priority_2,
    }
}

impl<'a> From<&'a InternalParentDS> for ParentDS {
    fn from(v: &'a InternalParentDS) -> (r: Self) {
        Self {
            parent_port_identity: v.parent_port_identity,
            grandmaster_identity: v.grandmaster_identity,
            grandmaster_clock_quality: v.grandmaster_clock_quality,
            grandmaster_priority_1: v.grandmaster_priority_1,
            grandmaster_priority_2: v.grandmaster_priority_2,
        }
    }
}

impl<'a> vstd::std_specs::convert::FromSpecImpl<&'a InternalParentDS> for ParentDS {
    open spec fn obeys_from_spec() -> bool {
        true
    }

    open spec fn from_spec(v: &'a InternalParentDS) -> Self {
        parent_ds_of(*v)
    }
}

} // verus!
