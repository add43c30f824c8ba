//! Common data structures that are used throughout the protocol

mod clock_identity;
mod clock_quality;
mod grandmaster_v1;
mod leap_indicator;
mod port_identity;
mod time_source;
mod time_interval;
mod timestamp;
mod timestamp_v1;
mod tlv;
mod tlv_type;

pub use clock_identity::{lemma_lex_order_antisymmetric, lemma_lex_order_equal, lex_order, ClockIdentity};
pub use clock_quality::{ClockAccuracy, ClockQuality};
pub use grandmaster_v1::{
    GrandmasterPropertiesV1, V2_COMPAT_PRIORITY1, V2_COMPAT_PRIORITY1_PREFERRED, V2_COMPAT_PRIORITY2,
};
pub use leap_indicator::LeapIndicator;
pub use port_identity::PortIdentity;
pub use time_source::TimeSource;
pub use time_interval::{i48f16_of_bits, zero_time_interval, TimeInterval};
pub use timestamp::{Timestamp, WireTimestamp};
pub use timestamp_v1::WireTimestampV1;
pub use tlv::TLV;
pub use tlv_type::TlvType;
