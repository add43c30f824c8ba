use vstd::prelude::*;

use crate::time::Duration;

verus! {

/// The PTP Current dataset of an instance (IEEE1588-2019 section 8.2.2)
#[derive(Clone, Copy, Debug, Default, PartialEq, Eq)]
pub struct InternalCurrentDS {
    /// The number of steps between the instance and its grandmaster.
    pub steps_removed: u16,
    /// The offset of the instance's clock from its master.
    pub offset_from_master: Duration,
    /// The mean delay between the instance and its master.
    pub mean_delay: Duration,
}

} // verus!
