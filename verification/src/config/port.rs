use vstd::prelude::*;

use crate::time::{Duration, Interval};

verus! {

/// Which delay mechanism a port is using.
#[derive(Copy, Clone, Debug, Eq, PartialEq, Hash)]
pub enum DelayMechanism {
    /// End to end delay mechanism. Delay measurement is done directly to the
    /// chosen master, across potential transparent nodes in between.
    E2E {
        /// The time between sending two delay requests
        interval: Interval,
    },
    /// Peer to peer delay mechanism. Delay measurement is done on the
    /// individaul links.
    P2P {
        /// The time between sending two peer delay requests
        interval: Interval,
    },
}

/// Configuration items of the PTP PortDS dataset. Dynamical fields are kept
/// with the port.
#[derive(Copy, Clone, Debug, Eq, PartialEq, Hash)]
pub struct PortConfig<A> {
    /// A list that contains all nodes that the port will accept as a master.
    pub acceptable_master_list: A,
    /// The mechanism used to measure the delay at the port.
    pub delay_mechanism: DelayMechanism,
    /// The time between announcements.
    pub announce_interval: Interval,
    /// Specifies how many announce intervals to wait until the announce
    /// message expires.
    pub announce_receipt_timeout: u8,
    /// Time between two sync messages when the port is in master mode.
    pub sync_interval: Interval,
    /// Never let the port become a slave.
    pub master_only: bool,
    /// The estimated asymmetry in the link connected to the port.
    pub delay_asymmetry: Duration,
}

impl<A> PortConfig<A> {
    /// Minimum time between two delay request messages: the interval of
    /// the delay mechanism.
    pub fn min_delay_req_interval(&self) -> (r: Interval)
        ensures
            r == match self.delay_mechanism {
                DelayMechanism::E2E { interval } => interval,
                DelayMechanism::P2P { interval } => interval,
            },
    {
        match self.delay_mechanism {
            DelayMechanism::E2E { interval } => interval,
            DelayMechanism::P2P { interval } => interval,
        }
    }
}

} // verus!
