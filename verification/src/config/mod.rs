//! Configuration structures
//!
//! Configurations for a PTP instance: [`InstanceConfig`] and
//! [`TimePropertiesDS`], and the types used within those configurations.

mod instance;
mod port;

pub use instance::InstanceConfig;
pub use port::{DelayMechanism, PortConfig};

pub use crate::datastructures::{
    common::{ClockAccuracy, ClockIdentity, ClockQuality, LeapIndicator, TimeSource},
    datasets::TimePropertiesDS,
    messages::SdoId,
};
