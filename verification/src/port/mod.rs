//! Abstraction of a network port of a device.

use vstd::prelude::*;

pub mod actions;
pub mod bmca;
pub mod master;
pub mod measurement;
pub mod peer_delay;
pub mod slave;
pub mod state;
pub mod timing;

pub use actions::{
    filter_update_action, ForwardedTLV, ForwardedTLVProvider, NoForwardedTLVs, PortAction,
    TimestampContext,
};

verus! {

/// Type state of a port that runs the protocol, between two runs of the best
/// master clock algorithm.
#[derive(Debug)]
pub struct Running;

/// The state a port is in before it is calibrated: it has nothing to
/// calibrate and becomes a slave right away.
#[derive(Debug)]
pub struct DefaultUncalibratedState;

} // verus!
