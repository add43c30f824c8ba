//! What a filter of time measurements reports to its port

use vstd::prelude::*;

use crate::time::Duration;

verus! {

/// Informs the port when to update the filter again, and of the mean delay.
#[derive(Debug, Clone, Default, PartialEq, Eq)]
pub struct FilterUpdate {
    /// Duration until the filter should be updated again; `None` if it does
    /// not need to be updated again.
    pub next_update: Option<core::time::Duration>,
    /// Mean delay measured on this link if known.
    pub mean_delay: Option<Duration>,
}

/// What a filter estimates of the clock of its port.
#[derive(Debug, Clone, Copy, PartialEq, Eq)]
pub struct FilterEstimate {
    /// The offset of the clock from its master.
    pub offset_from_master: Duration,
    /// The mean delay between the port and its master.
    pub mean_delay: Duration,
}

} // verus!
