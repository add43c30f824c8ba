use vstd::prelude::*;

use crate::datastructures::common::TimeInterval;

verus! {

/// A span of time: a number of nanoseconds as a fixed-point number with 32
/// fractional bits, held as its bits. Arithmetic on durations wraps around
/// at the bounds of the bits.
#[derive(Debug, Clone, Copy, PartialEq, Eq, PartialOrd, Ord, Hash, Default)]
pub struct Duration {
    /// The bits of the number of nanoseconds: nanoseconds times `2^32`.
    pub bits: i128,
}

/// `b / 2` rounded toward zero.
pub open spec fn half_toward_zero(b: i128) -> i128 {
    if b >= 0 {
        (b / 2) as i128
    } else {
        (-((-b) / 2)) as i128
    }
}

impl Duration {
    /// The duration of zero nanoseconds.
    pub fn zero() -> (r: Duration)
        ensures
            r.bits == 0,
    {
        Duration { bits: 0 }
    }

    /// The duration of an interval: its nanoseconds, from 16 to 32
    /// fractional bits.
    pub fn from_time_interval(interval: &TimeInterval) -> (r: Duration)
        ensures
            r.bits == interval.bits() * 0x1_0000,
    {
        let bits = interval.to_bits();
        Duration { bits: bits as i128 * 0x1_0000 }
    }

    /// The sum `self + other`.
    pub fn plus(self, other: Duration) -> (r: Duration)
        ensures
            r.bits == self.bits.wrapping_add(other.bits),
    {
        Duration { bits: self.bits.wrapping_add(other.bits) }
    }

    /// The difference `self - other`.
    pub fn minus(self, other: Duration) -> (r: Duration)
        ensures
            r.bits == self.bits.wrapping_sub(other.bits),
    {
        Duration { bits: self.bits.wrapping_sub(other.bits) }
    }

    /// Half the duration, rounded toward zero.
    pub fn half(self) -> (r: Duration)
        ensures
            r.bits == half_toward_zero(self.bits),
    {
        if self.bits >= 0 {
            Duration { bits: self.bits / 2 }
        } else {
            let m: u128 = (0i128 - (self.bits + 1)) as u128 + 1;
            let q: u128 = m / 2;
            Duration { bits: 0i128 - (q as i128) }
        }
    }
}

} // verus!
