use vstd::prelude::*;

use core::cmp::Ordering;

verus! {

/// How accurate a clock is (IEEE1588-2019 section 7.6.2.6, table 5).
#[derive(Debug, Clone, Copy, PartialEq, Eq, Hash)]
pub enum ClockAccuracy {
    /// Reserved value
    Reserved,
    /// Accurate within 1 ps
    PS1,
    /// Accurate within 2.5 ps
    PS2_5,
    /// Accurate within 10 ps
    PS10,
    /// Accurate within 25 ps
    PS25,
    /// Accurate within 100 ps
    PS100,
    /// Accurate within 250 ps
    PS250,
    /// Accurate within 1 ns
    NS1,
    /// Accurate within 2.5 ns
    NS2_5,
    /// Accurate within 10 ns
    NS10,
    /// Accurate within 25 ns
    NS25,
    /// Accurate within 100 ns
    NS100,
    /// Accurate within 250 ns
    NS250,
    /// Accurate within 1 us
    US1,
    /// Accurate within 2.5 us
    US2_5,
    /// Accurate within 10 us
    US10,
    /// Accurate within 25 us
    US25,
    /// Accurate within 100 us
    US100,
    /// Accurate within 250 us
    US250,
    /// Accurate within 1 ms
    MS1,
    /// Accurate within 2.5 ms
    MS2_5,
    /// Accurate within 10 ms
    MS10,
    /// Accurate within 25 ms
    MS25,
    /// Accurate within 100 ms
    MS100,
    /// Accurate within 250 ms
    MS250,
    /// Accurate within 1 s
    S1,
    /// Accurate within 10 s
    S10,
    /// Accurate within more than 10 s
    SGT10,
    /// Accuracy is unknown
    Unknown,
}

impl ClockAccuracy {
    /// The value of this accuracy on the wire.
    pub open spec fn primitive(self) -> u8 {
        match self {
            ClockAccuracy::Reserved => 0x00,
            ClockAccuracy::PS1 => 0x17,
            ClockAccuracy::PS2_5 => 0x18,
            ClockAccuracy::PS10 => 0x19,
            ClockAccuracy::PS25 => 0x1a,
            ClockAccuracy::PS100 => 0x1b,
            ClockAccuracy::PS250 => 0x1c,
            ClockAccuracy::NS1 => 0x1d,
            ClockAccuracy::NS2_5 => 0x1e,
            ClockAccuracy::NS10 => 0x1f,
            ClockAccuracy::NS25 => 0x20,
            ClockAccuracy::NS100 => 0x21,
            ClockAccuracy::NS250 => 0x22,
            ClockAccuracy::US1 => 0x23,
            ClockAccuracy::US2_5 => 0x24,
            ClockAccuracy::US10 => 0x25,
            ClockAccuracy::US25 => 0x26,
            ClockAccuracy::US100 => 0x27,
            ClockAccuracy::US250 => 0x28,
            ClockAccuracy::MS1 => 0x29,
            ClockAccuracy::MS2_5 => 0x2a,
            ClockAccuracy::MS10 => 0x2b,
            ClockAccuracy::MS25 => 0x2c,
            ClockAccuracy::MS100 => 0x2d,
            ClockAccuracy::MS250 => 0x2e,
            ClockAccuracy::S1 => 0x2f,
            ClockAccuracy::S10 => 0x30,
            ClockAccuracy::SGT10 => 0x31,
            ClockAccuracy::Unknown => 0xfe,
        }
    }

    /// The value of this accuracy on the wire.
    pub fn to_primitive(&self) -> (r: u8)
        ensures
            r == self.primitive(),
    {
        match self {
            ClockAccuracy::Reserved => 0x00,
            ClockAccuracy::PS1 => 0x17,
            ClockAccuracy::PS2_5 => 0x18,
            ClockAccuracy::PS10 => 0x19,
            ClockAccuracy::PS25 => 0x1a,
            ClockAccuracy::PS100 => 0x1b,
            ClockAccuracy::PS250 => 0x1c,
            ClockAccuracy::NS1 => 0x1d,
            ClockAccuracy::NS2_5 => 0x1e,
            ClockAccuracy::NS10 => 0x1f,
            ClockAccuracy::NS25 => 0x20,
            ClockAccuracy::NS100 => 0x21,
            ClockAccuracy::NS250 => 0x22,
            ClockAccuracy::US1 => 0x23,
            ClockAccuracy::US2_5 => 0x24,
            ClockAccuracy::US10 => 0x25,
            ClockAccuracy::US25 => 0x26,
            ClockAccuracy::US100 => 0x27,
            ClockAccuracy::US250 => 0x28,
            ClockAccuracy::MS1 => 0x29,
            ClockAccuracy::MS2_5 => 0x2a,
            ClockAccuracy::MS10 => 0x2b,
            ClockAccuracy::MS25 => 0x2c,
            ClockAccuracy::MS100 => 0x2d,
            ClockAccuracy::MS250 => 0x2e,
            ClockAccuracy::S1 => 0x2f,
            ClockAccuracy::S10 => 0x30,
            ClockAccuracy::SGT10 => 0x31,
            ClockAccuracy::Unknown => 0xfe,
        }
    }

    /// Compares the accuracies by their numeric value on the wire, which is
    /// the reverse of their semantic order (a lower value is more accurate).
    pub fn cmp_numeric(&self, other: &Self) -> (r: Ordering)
        ensures
            r == Ordering::Less <==> self.primitive() < other.primitive(),
            r == Ordering::Equal <==> self.primitive() == other.primitive(),
            r == Ordering::Greater <==> self.primitive() > other.primitive(),
    {
        let a = self.to_primitive();
        let b = other.to_primitive();
        if a < b {
            Ordering::Less
        } else if a == b {
            Ordering::Equal
        } else {
            Ordering::Greater
        }
    }
}

impl Default for ClockAccuracy {
    fn default() -> (r: Self)
        ensures
            r == ClockAccuracy::Unknown,
    {
        ClockAccuracy::Unknown
    }
}

/// A description of the accuracy and type of a clock.
#[derive(Debug, Clone, Copy, PartialEq, Eq, Hash)]
pub struct ClockQuality {
    /// The PTP clock class (IEEE1588-2019 section 7.6.2.5).
    pub clock_class: u8,
    /// The accuracy of the clock.
    pub clock_accuracy: ClockAccuracy,
    /// 2-log of the variance (in seconds^2) of the clock when not
    /// synchronized (IEEE1588-2019 section 7.6.3.5).
    pub offset_scaled_log_variance: u16,
}

impl Default for ClockQuality {
    fn default() -> (r: Self)
        ensures
            r.clock_class == 248,
            r.clock_accuracy == ClockAccuracy::Unknown,
            r.offset_scaled_log_variance == 0xffff,
    {
        ClockQuality {
            clock_class: 248,
            clock_accuracy: ClockAccuracy::Unknown,
            offset_scaled_log_variance: 0xffff,
        }
    }
}

} // verus!
