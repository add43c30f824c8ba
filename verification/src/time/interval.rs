use vstd::arithmetic::power2::{lemma2_to64, lemma2_to64_rest, lemma_pow2_adds, lemma_pow2_pos, lemma_pow2_strictly_increases, pow2};
use vstd::bits::{lemma_u64_pow2_no_overflow, lemma_u64_shl_is_mul};
use vstd::prelude::*;

use super::duration::Duration;

verus! {

/// The `core::time::Duration` that `Duration::new` makes of a number of whole
/// seconds and a number of nanoseconds below one second.
pub uninterp spec fn core_duration(secs: u64, nanos: u32) -> core::time::Duration;

/// Calls `core::time::Duration::new`. Its documentation says that it makes
/// the duration of `secs` seconds and `nanos` nanoseconds, and that it panics
/// only when the nanoseconds carry over into a second count that overflows;
/// with `nanos` below one second nothing carries. The contract names the
/// result by its two arguments.
#[verifier::external_body]
fn duration_from_parts(secs: u64, nanos: u32) -> (d: core::time::Duration)
    requires
        nanos < 1_000_000_000,
    ensures
        d == core_duration(secs, nanos),
{
    core::time::Duration::new(secs, nanos)
}

/// `n / d` rounded to the nearest integer, ties to the even one.
pub open spec fn round_half_even_div(n: nat, d: nat) -> nat
    recommends
        d > 0,
{
    let q = n / d;
    let r = n % d;
    if 2 * r > d || (2 * r == d && q % 2 == 1) {
        q + 1
    } else {
        q
    }
}

/// The whole seconds of an interval of `2^log_2` seconds.
pub open spec fn interval_secs(log_2: i8) -> nat {
    if log_2 >= 0 {
        pow2(log_2 as nat)
    } else {
        0
    }
}

/// The nanoseconds below one second of an interval of `2^log_2` seconds,
/// rounded to the nearest nanosecond, ties to even.
pub open spec fn interval_subsec_nanos(log_2: i8) -> nat {
    if log_2 >= 0 {
        0
    } else {
        round_half_even_div(1_000_000_000, pow2((-log_2) as nat))
    }
}

/// The bits of the [`Duration`] of an interval of `2^log_2` seconds: its
/// nanoseconds times `2^32`, that is `10^9 * 2^(log_2 + 32)`.
pub open spec fn interval_duration_bits(log_2: i8) -> int {
    (1_000_000_000 * pow2((log_2 + 32) as nat)) as int
}

/// Whether a duration of `bits` (nanoseconds times `2^32`) is shorter than
/// an interval of `2^log_2` seconds: `bits < 10^9 * 2^(log_2 + 32)`, read
/// over the rationals.
pub open spec fn shorter_than_interval(bits: int, log_2: i8) -> bool {
    if log_2 >= -32 {
        bits < 1_000_000_000 * pow2((log_2 + 32) as nat)
    } else {
        bits * pow2((-32 - log_2) as nat) < 1_000_000_000
    }
}

/// A log2 representation of seconds used to describe the pacing of events in
/// PTP
#[derive(Copy, Clone, Debug, Eq, PartialEq, Ord, PartialOrd, Hash)]
pub struct Interval(i8);

/// The nanoseconds of `2^-k` seconds, rounded to the nearest nanosecond, ties
/// to even.
fn subsec_nanos_of_negative_log_2(k: u64) -> (n: u32)
    requires
        1 <= k <= 128,
    ensures
        n == round_half_even_div(1_000_000_000, pow2(k as nat)),
        n < 1_000_000_000,
{
    if k <= 40 {
        proof {
            lemma_u64_pow2_no_overflow(k as nat);
            lemma_u64_shl_is_mul(1, k);
            lemma_pow2_strictly_increases(0, k as nat);
            lemma2_to64();
        }
        let d: u64 = 1u64 << k;
        let q: u64 = 1_000_000_000u64 / d;
        let r: u64 = 1_000_000_000u64 % d;
        assert(q <= 500_000_000 && r <= 1_000_000_000) by (nonlinear_arith)
            requires
                d >= 2,
                q == 1_000_000_000u64 / d,
                r == 1_000_000_000u64 % d,
        ;
        if 2 * r > d || (2 * r == d && q % 2 == 1) {
            (q + 1) as u32
        } else {
            q as u32
        }
    } else {
        proof {
            lemma2_to64();
            lemma_pow2_strictly_increases(31, k as nat);
            let p = pow2(k as nat);
            assert(1_000_000_000nat / p == 0 && 1_000_000_000nat % p == 1_000_000_000) by (nonlinear_arith)
                requires
                    p > 2_000_000_000,
            ;
        }
        0
    }
}

impl Interval {
    /// An Interval of one second
    pub fn one_second() -> (r: Self)
        ensures
            r.log_2() == 0,
    {
        Interval(0)
    }

    /// An Interval of two seconds
    pub fn two_seconds() -> (r: Self)
        ensures
            r.log_2() == 1,
    {
        Interval(1)
    }

    /// The log2 of the number of seconds of the interval.
    pub closed spec fn log_2(self) -> i8 {
        self.0
    }

    /// Construct an [`Interval`] from log2 seconds.
    ///
    /// # Example
    /// ```
    /// # use std::time::Duration;
    /// # use statime::time::Interval;
    /// assert_eq!(Interval::from_log_2(2).as_core_duration(), Duration::from_secs(4));
    /// assert_eq!(Interval::from_log_2(-2).as_core_duration(), Duration::from_millis(250));
    /// ```
    pub fn from_log_2(log_2: i8) -> (r: Self)
        ensures
            r.log_2() == log_2,
    {
        Self(log_2)
    }

    /// Turn this into a [`core::time::Duration`]: `2^log_2` seconds, rounded
    /// to the nearest nanosecond. Intervals of `2^64` seconds and more do not
    /// fit a `Duration`.
    ///
    /// # Example
    /// ```
    /// # use statime::time::{Interval};
    /// use core::time::Duration;
    /// assert_eq!(Interval::from_log_2(3).as_core_duration(), Duration::from_secs(8));
    /// assert_eq!(Interval::from_log_2(-3).as_core_duration(), Duration::from_millis(125));
    /// ```
    pub fn as_core_duration(self) -> (d: core::time::Duration)
        requires
            self.log_2() < 64,
        ensures
            d == core_duration(
                interval_secs(self.log_2()) as u64,
                interval_subsec_nanos(self.log_2()) as u32,
            ),
            interval_secs(self.log_2()) <= u64::MAX,
            interval_subsec_nanos(self.log_2()) < 1_000_000_000,
    {
        if self.0 >= 0 {
            let e: u64 = self.0 as u64;
            proof {
                lemma_u64_pow2_no_overflow(e as nat);
                lemma_u64_shl_is_mul(1, e);
            }
            duration_from_parts(1u64 << e, 0)
        } else {
            let k: u64 = (0i16 - self.0 as i16) as u64;
            let nanos = subsec_nanos_of_negative_log_2(k);
            duration_from_parts(0, nanos)
        }
    }

    /// Turn this into a [`Duration`](`crate::time::Duration`): `2^log_2`
    /// seconds, exactly. Intervals shorter than `2^-32` seconds are not a
    /// whole number of the units of a `Duration`, and those of `2^65`
    /// seconds and more do not fit one.
    ///
    /// # Example
    /// ```
    /// # use statime::time::{Duration, Interval};
    /// assert_eq!(Interval::from_log_2(3).as_duration(), Duration { bits: 8_000_000_000 << 32 });
    /// assert_eq!(Interval::from_log_2(-3).as_duration(), Duration { bits: 125_000_000 << 32 });
    /// ```
    pub fn as_duration(self) -> (d: Duration)
        requires
            -32 <= self.log_2() <= 64,
        ensures
            d.bits == interval_duration_bits(self.log_2()),
    {
        let k: u64 = (self.0 as i16 + 32) as u64;
        let mut bits: i128 = 1_000_000_000;
        let mut i: u64 = 0;
        proof {
            lemma2_to64();
        }
        while i < k
            invariant
                k <= 96,
                i <= k,
                bits == 1_000_000_000 * pow2(i as nat),
            decreases k - i,
        {
            proof {
                lemma2_to64();
                lemma2_to64_rest();
                lemma_pow2_adds(63, 32);
                assert(pow2(95) == 0x8000_0000_0000_0000_0000_0000) by (nonlinear_arith)
                    requires
                        pow2(95) == pow2(63) * pow2(32),
                        pow2(63) == 0x8000000000000000,
                        pow2(32) == 0x100000000,
                ;
                if i < 95 {
                    lemma_pow2_strictly_increases(i as nat, 95);
                }
                lemma_pow2_adds(i as nat, 1);
                let p = pow2(i as nat);
                assert(1_000_000_000 * p * 2 < 0x8000_0000_0000_0000_0000_0000_0000_0000
                    && 1_000_000_000 * (p * 2) == 1_000_000_000 * p * 2) by (nonlinear_arith)
                    requires
                        p <= 0x8000_0000_0000_0000_0000_0000,
                ;
            }
            bits = bits * 2;
            i = i + 1;
        }
        Duration { bits }
    }

    /// Whether the duration `d` is shorter than the interval (see
    /// [`shorter_than_interval`]).
    pub fn exceeds(self, d: Duration) -> (r: bool)
        ensures
            r == shorter_than_interval(d.bits as int, self.log_2()),
    {
        proof {
            lemma2_to64();
            lemma2_to64_rest();
        }
        if self.0 >= 66 {
            proof {
                let e = (self.0 + 32) as nat;
                lemma_pow2_adds(64, 34);
                if e > 98 {
                    lemma_pow2_strictly_increases(98, e);
                }
                let p = pow2(e);
                assert(p >= 0x4_0000_0000_0000_0000_0000_0000) by (nonlinear_arith)
                    requires
                        p >= pow2(98),
                        pow2(98) == pow2(64) * pow2(34),
                        pow2(64) == 0x10000000000000000,
                        pow2(34) == 0x400000000,
                ;
                assert(d.bits < 1_000_000_000 * p) by (nonlinear_arith)
                    requires
                        p >= 0x4_0000_0000_0000_0000_0000_0000,
                        d.bits < 0x8000_0000_0000_0000_0000_0000_0000_0000,
                ;
            }
            true
        } else if self.0 == 65 {
            proof {
                lemma_pow2_adds(64, 33);
                assert(1_000_000_000 * pow2(97) == 0x2_0000_0000_0000_0000_0000_0000 * 1_000_000_000)
                    by (nonlinear_arith)
                    requires
                        pow2(97) == pow2(64) * pow2(33),
                        pow2(64) == 0x10000000000000000,
                        pow2(33) == 0x200000000,
                ;
            }
            d.bits < 0x2_0000_0000_0000_0000_0000_0000i128 * 1_000_000_000i128
        } else if self.0 >= -32 {
            d.bits < self.as_duration().bits
        } else {
            let k: u64 = (0i16 - 32 - self.0 as i16) as u64;
            proof {
                lemma_pow2_pos(k as nat);
            }
            if d.bits <= 0 {
                proof {
                    assert(d.bits * pow2(k as nat) <= 0) by (nonlinear_arith)
                        requires
                            d.bits <= 0,
                            pow2(k as nat) > 0,
                    ;
                }
                return true;
            }
            if d.bits >= 1_000_000_000 {
                proof {
                    assert(d.bits * pow2(k as nat) >= d.bits) by (nonlinear_arith)
                        requires
                            d.bits > 0,
                            pow2(k as nat) >= 1,
                    ;
                }
                return false;
            }
            let mut v: i128 = d.bits;
            let mut i: u64 = 0;
            while i < k
                invariant
                    1 <= k <= 96,
                    i <= k,
                    0 < d.bits < 1_000_000_000,
                    v == d.bits * pow2(i as nat),
                decreases k - i,
            {
                proof {
                    lemma2_to64();
                    lemma2_to64_rest();
                    lemma_pow2_adds(64, 31);
                    if i < 95 {
                        lemma_pow2_strictly_increases(i as nat, 95);
                    }
                    lemma_pow2_adds(i as nat, 1);
                    let p = pow2(i as nat);
                    assert(p <= 0x8000_0000_0000_0000_0000_0000) by (nonlinear_arith)
                        requires
                            p <= pow2(95),
                            pow2(95) == pow2(64) * pow2(31),
                            pow2(64) == 0x10000000000000000,
                            pow2(31) == 0x80000000,
                    ;
                    assert(d.bits * p * 2 < 0x8000_0000_0000_0000_0000_0000_0000_0000 && d.bits * (p
                        * 2) == d.bits * p * 2) by (nonlinear_arith)
                        requires
                            p <= 0x8000_0000_0000_0000_0000_0000,
                            0 < d.bits < 1_000_000_000,
                    ;
                }
                v = v * 2;
                i = i + 1;
            }
            v < 1_000_000_000
        }
    }

    /// Get the log2 of the numbers of seconds of this [`Interval`]
    ///
    /// # Example
    /// ```
    /// # use statime::time::{Interval};
    /// assert_eq!(Interval::one_second().as_log_2(), 0);
    /// assert_eq!(Interval::two_seconds().as_log_2(), 1);
    /// ```
    pub fn as_log_2(self) -> (r: i8)
        ensures
            r == self.log_2(),
    {
        self.0
    }
}

impl From<i8> for Interval {
    fn from(value: i8) -> (r: Self) {
        Self::from_log_2(value)
    }
}

impl vstd::std_specs::convert::FromSpecImpl<i8> for Interval {
    open spec fn obeys_from_spec() -> bool {
        true
    }

    closed spec fn from_spec(v: i8) -> Self {
        Interval(v)
    }
}

} // verus!
