use vstd::prelude::*;

use crate::config::{ClockIdentity, ClockQuality, SdoId};
use crate::datastructures::datasets::InternalDefaultDS;

verus! {

/// A concrete implementation of the PTP Default dataset (IEEE1588-2019 section
/// 8.2.1)
///
/// See [InternalDefaultDS](crate::datastructures::datasets::InternalDefaultDS).
#[derive(Debug, Copy, Clone, PartialEq, Eq)]
pub struct DefaultDS {
    /// The identity of a PTP node.
    /// See *IEEE1588-2019 section 8.2.1.2.2*.
    pub clock_identity: ClockIdentity,
    /// The amount of PTP ports on this PTP instance.
    /// See *IEEE1588-2019 section 8.2.1.2.3*.
    pub number_ports: u16,
    /// A description of the accuracy and type of a clock.
    pub clock_quality: ClockQuality,
    /// See *IEEE1588-2019 section 8.2.1.4.1*.
    pub priority_1: u8,
    /// See *IEEE1588-2019 section 8.2.1.4.2*.
    pub priority_2: u8,
    /// See *IEEE1588-2019 section 8.2.1.4.3*.
    pub domain_number: u8,
    /// See *IEEE1588-2019 section  8.2.1.4.4*.
    pub slave_only: bool,
    /// See *IEEE1588-2019 section 7.1.4 table 2*.
    pub sdo_id: SdoId,
}

/// The observable default data set of an instance's internal one: the same
/// fields, field by field.
pub open spec fn default_ds_of(v: InternalDefaultDS) -> DefaultDS {
    DefaultDS {
        clock_identity: v.clock_identity,
        number_ports: v.number_ports,
        clock_quality: v.clock_quality,
        priority_1: v.priority_1,
        priority_2: v.priority_2,
        domain_number: v.domain_number,
        slave_only: v.slave_only,
        sdo_id: v.sdo_id,
    }
}

impl<'a> From<&'a InternalDefaultDS> for DefaultDS {
    fn from(v: &'a InternalDefaultDS) -> (r: Self) {
        Self {
            clock_identity: v.clock_identity,
            number_ports: v.number_ports,
            clock_quality: v.clock_quality,
            priority_1: v.priority_1,
            priority_2: v.priority_2,
            domain_number: v.domain_number,
            slave_only: v.slave_only,
            sdo_id: v.sdo_id,
        }
    }
}

impl<'a> vstd::std_specs::convert::FromSpecImpl<&'a InternalDefaultDS> for DefaultDS {
    open spec fn obeys_from_spec() -> bool {
        true
    }

    open spec fn from_spec(v: &'a InternalDefaultDS) -> Self {
        default_ds_of(*v)
    }
}

} // verus!
