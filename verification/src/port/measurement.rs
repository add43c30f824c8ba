use vstd::prelude::*;

use crate::datastructures::common::PortIdentity;
use crate::time::{Duration, Time};

verus! {

/// A measurement that a port hands to its filter: what a completed sync,
/// delay or peer delay measurement gave.
#[derive(Debug, Clone, Copy, PartialEq, Eq)]
pub struct Measurement {
    /// When the measured event happened.
    pub event_time: Time,
    /// The offset from the master, with the mean delay taken off.
    pub offset: Option<Duration>,
    /// The delay between the master and this port.
    pub delay: Option<Duration>,
    /// The delay over the link to the peer.
    pub peer_delay: Option<Duration>,
    /// The offset of a sync measurement, with the delay not taken off.
    pub raw_sync_offset: Option<Duration>,
    /// The offset of a delay measurement.
    pub raw_delay_offset: Option<Duration>,
}

/// A peer delay measurement (IEEE1588-2019 section 11.4).
#[derive(Debug, Clone, Copy, PartialEq, Eq)]
pub enum PeerDelayState {
    /// No measurement is in progress.
    Empty,
    /// The measurement of the peer delay request with sequence id `id`.
    Measuring {
        id: u16,
        responder_identity: Option<PortIdentity>,
        request_send_time: Option<Time>,
        request_recv_time: Option<Time>,
        response_send_time: Option<Time>,
        response_recv_time: Option<Time>,
    },
    /// The measurement of the request `id` is done; `responder_identity`
    /// answered it.
    PostMeasurement { id: u16, responder_identity: PortIdentity },
}

} // verus!
