use vstd::prelude::*;

use super::Duration;
use crate::datastructures::common::WireTimestamp;

verus! {

/// A point in time: the nanoseconds since the PTP epoch as a fixed-point
/// number with 32 fractional bits, held as its bits. Arithmetic on times
/// wraps around at the bounds of the bits.
#[derive(Debug, Clone, Copy, PartialEq, Eq, PartialOrd, Ord, Hash, Default)]
pub struct Time {
    /// The bits of the number of nanoseconds: nanoseconds times `2^32`.
    pub bits: i128,
}

/// The bits of the time that a timestamp stands for.
pub open spec fn timestamp_bits(ts: WireTimestamp) -> int {
    (ts.seconds * 1_000_000_000 + ts.nanos) * 0x1_0000_0000
}

impl Time {
    /// The time a timestamp stands for.
    pub fn from_timestamp(ts: WireTimestamp) -> (r: Time)
        ensures
            r.bits == timestamp_bits(ts),
    {
        let s: i128 = ts.seconds as i128;
        let n: i128 = ts.nanos as i128;
        assert(s * 1_000_000_000 + n <= 0x1_0000_0000_0000_0000_0000_0000) by (nonlinear_arith)
            requires
                0 <= s <= u64::MAX,
                0 <= n <= u32::MAX,
        ;
        assert(0 <= s * 1_000_000_000 + n) by (nonlinear_arith)
            requires
                0 <= s,
                0 <= n,
        ;
        Time { bits: (s * 1_000_000_000 + n) * 0x1_0000_0000 }
    }

    /// The time `d` after `self`.
    pub fn plus(self, d: Duration) -> (r: Time)
        ensures
            r.bits == self.bits.wrapping_add(d.bits),
    {
        Time { bits: self.bits.wrapping_add(d.bits) }
    }

    /// The time `d` before `self`.
    pub fn minus(self, d: Duration) -> (r: Time)
        ensures
            r.bits == self.bits.wrapping_sub(d.bits),
    {
        Time { bits: self.bits.wrapping_sub(d.bits) }
    }

    /// The duration from `other` to `self`.
    pub fn since(self, other: Time) -> (r: Duration)
        ensures
            r.bits == self.bits.wrapping_sub(other.bits),
    {
        Duration { bits: self.bits.wrapping_sub(other.bits) }
    }
}

/// When a message was received that is `age` old at `now`: `now - age`,
/// down to the nanosecond. A message that is not older than zero was
/// received now; one older than `now` at the start of the timescale. When
/// the seconds do not fit, they are the largest that do.
pub open spec fn received_at(now: WireTimestamp, age: Duration) -> WireTimestamp {
    let b = timestamp_bits(now) - age.bits;
    if age.bits <= 0 {
        now
    } else if b <= 0 {
        WireTimestamp { seconds: 0, nanos: 0 }
    } else {
        let n = b / 0x1_0000_0000;
        WireTimestamp {
            seconds: if n / 1_000_000_000 > u64::MAX {
                u64::MAX
            } else {
                (n / 1_000_000_000) as u64
            },
            nanos: (n % 1_000_000_000) as u32,
        }
    }
}

/// When a message that is `age` old at `now` was received.
pub fn receive_time(now: WireTimestamp, age: Duration) -> (r: WireTimestamp)
    ensures
        r == received_at(now, age),
{
    if age.bits <= 0 {
        return now;
    }
    let t = Time::from_timestamp(now);
    if age.bits >= t.bits {
        return WireTimestamp { seconds: 0, nanos: 0 };
    }
    let b: i128 = t.bits - age.bits;
    let n: i128 = b / 0x1_0000_0000;
    let seconds: i128 = n / 1_000_000_000;
    let nanos: i128 = n % 1_000_000_000;
    if seconds > 0xffff_ffff_ffff_ffff {
        WireTimestamp { seconds: u64::MAX, nanos: nanos as u32 }
    } else {
        WireTimestamp { seconds: seconds as u64, nanos: nanos as u32 }
    }
}

} // verus!
