use vstd::prelude::*;

use crate::datastructures::datasets::InternalCurrentDS;
use crate::filters::FilterEstimate;
use crate::time::Duration;

verus! {

/// A concrete implementation of the PTP Current dataset (IEEE1588-2019 section
/// 8.2.2)
///
/// Note that the `meanDelay` field from IEEE1588-2019 section 8.2.2.4 is
/// missing since this field can be constructed from the portDS.
#[derive(Debug, Default, Copy, Clone, PartialEq, Eq)]
pub struct CurrentDS {
    /// See *IEEE1588-2019 section 8.2.2.2*.
    pub steps_removed: u16,
    /// See *IEEE1588-2019 section 8.2.2.3*.
    pub offset_from_master: Duration,
    /// See *IEEE1588-2019 section 8.2.2.3*.
    pub mean_delay: Duration,
}

impl CurrentDS {
    /// The observable current data set: the steps removed of the instance,
    /// and the offset and mean delay that the port contributes, or zero
    /// when no port does.
    pub fn from_state(current_ds: &InternalCurrentDS, port_contribution: Option<FilterEstimate>) -> (r: Self)
        ensures
            r.steps_removed == current_ds.steps_removed,
            r.offset_from_master == match port_contribution {
                Some(c) => c.offset_from_master,
                None => Duration { bits: 0 },
            },
            r.mean_delay == match port_contribution {
                Some(c) => c.mean_delay,
                None => Duration { bits: 0 },
            },
    {
        match port_contribution {
            Some(port_contribution) => Self {
                steps_removed: current_ds.steps_removed,
                offset_from_master: port_contribution.offset_from_master,
                mean_delay: port_contribution.mean_delay,
            },
            None => Self {
                steps_removed: current_ds.steps_removed,
                offset_from_master: Duration::zero(),
                mean_delay: Duration::zero(),
            },
        }
    }
}

} // verus!
