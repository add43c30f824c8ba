//! Types that describe points in time ([`Time`]), durations between two
//! instants ([`Duration`]) and the pacing of events ([`Interval`])

mod duration;
mod instant;
mod interval;

pub use duration::{half_toward_zero, Duration};
pub use instant::{received_at, receive_time, timestamp_bits, Time};
pub use interval::{core_duration, interval_duration_bits, shorter_than_interval, interval_secs, interval_subsec_nanos, round_half_even_div, Interval};
