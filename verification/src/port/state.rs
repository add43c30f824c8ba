use vstd::prelude::*;

use crate::datastructures::common::PortIdentity;
use crate::time::{Duration, Time};

verus! {

/// The state of a port in the protocol.
#[derive(Debug, Clone, Copy)]
pub enum PortState {
    /// The port is not working.
    Faulty,
    /// The port listens for announce messages.
    Listening,
    /// The port is the master of its segment.
    Master,
    /// The port neither sends nor follows time.
    Passive,
    /// The port follows the time of a master.
    Slave(SlaveState),
}

impl Default for PortState {
    fn default() -> (r: Self)
        ensures
            r is Faulty,
    {
        PortState::Faulty
    }
}

/// The state of a port that follows a master.
#[derive(Debug, Clone, Copy)]
pub struct SlaveState {
    /// The port of the master that is followed.
    pub remote_master: PortIdentity,
    /// The sync measurement in progress.
    pub sync_state: SyncState,
    /// The delay measurement in progress.
    pub delay_state: DelayState,
    /// The offset that the last sync measurement gave, before the delay is
    /// taken off.
    pub last_raw_sync_offset: Option<Duration>,
}

/// A sync measurement: the times a sync message was sent and received.
#[derive(Clone, Copy, Debug, PartialEq, Eq)]
pub enum SyncState {
    /// No measurement is in progress.
    Empty,
    /// The measurement of the sync message with sequence id `id`.
    Measuring { id: u16, send_time: Option<Time>, recv_time: Option<Time> },
}

/// A delay measurement: the times a delay request was sent and received.
#[derive(Clone, Copy, Debug, PartialEq, Eq)]
pub enum DelayState {
    /// No measurement is in progress.
    Empty,
    /// The measurement of the delay request with sequence id `id`.
    Measuring { id: u16, send_time: Option<Time>, recv_time: Option<Time> },
}

impl SlaveState {
    /// The state of a port that starts following `remote_master`.
    pub open spec fn spec_new(remote_master: PortIdentity) -> SlaveState {
        SlaveState {
            remote_master,
            sync_state: SyncState::Empty,
            delay_state: DelayState::Empty,
            last_raw_sync_offset: None,
        }
    }

    /// The port of the master that is followed.
    pub fn remote_master(&self) -> (r: PortIdentity)
        ensures
            r == self.remote_master,
    {
        self.remote_master
    }

    /// A slave state that follows `remote_master`, with no measurement in
    /// progress.
    pub fn new(remote_master: PortIdentity) -> (r: Self)
        ensures
            r == Self::spec_new(remote_master),
    {
        SlaveState {
            remote_master,
            sync_state: SyncState::Empty,
            delay_state: DelayState::Empty,
            last_raw_sync_offset: None,
        }
    }
}

} // verus!
