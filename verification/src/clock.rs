//! Definitions of the properties of the time a clock keeps

use vstd::prelude::*;

verus! {

/// The timescale a clock is synchronized to, with the traceability of its
/// time and frequency.
#[derive(Debug, Clone, Copy, PartialEq, Eq)]
pub enum TimeProperties {
    /// The time is synchronized as a UTC time
    PtpTime {
        /// The amount of seconds the time is away from UTC
        current_utc_offset: Option<u16>,
        /// Indicates that the last minute of this day will have 61 seconds
        leap_61: bool,
        /// Indicates that the last minute of this day will have 59 seconds
        leap_59: bool,
        /// Indicates that the time is traceable to the primary source.
        /// This may have an effect on how the time is filtered.
        time_traceable: bool,
        /// Indicates that the frequency is traceable to the primary source.
        /// This may have an effect on how the frequency is filtered.
        frequency_traceable: bool,
    },
    /// The time is synchronized with an arbitrary start point
    ArbitraryTime {
        /// Indicates that the time is traceable to the primary source.
        /// This may have an effect on how the time is filtered.
        time_traceable: bool,
        /// Indicates that the frequency is traceable to the primary source.
        /// This may have an effect on how the frequency is filtered.
        frequency_traceable: bool,
    },
}

impl TimeProperties {
    /// Whether the time is traceable to the primary source, in either variant.
    pub open spec fn spec_time_traceable(self) -> bool {
        match self {
            TimeProperties::PtpTime { time_traceable, .. } => time_traceable,
            TimeProperties::ArbitraryTime { time_traceable, .. } => time_traceable,
        }
    }

    /// Whether the frequency is traceable to the primary source, in either
    /// variant.
    pub open spec fn spec_frequency_traceable(self) -> bool {
        match self {
            TimeProperties::PtpTime { frequency_traceable, .. } => frequency_traceable,
            TimeProperties::ArbitraryTime { frequency_traceable, .. } => frequency_traceable,
        }
    }

    /// Returns `true` if the time properties is [`PtpTime`].
    ///
    /// [`PtpTime`]: TimeProperties::PtpTime
    pub fn is_ptp_time(&self) -> (r: bool)
        ensures
            r == (*self is PtpTime),
    {
        matches!(self, Self::PtpTime { .. })
    }

    /// Returns `true` if the time properties is [`ArbitraryTime`].
    ///
    /// [`ArbitraryTime`]: TimeProperties::ArbitraryTime
    pub fn is_arbitrary_time(&self) -> (r: bool)
        ensures
            r == (*self is ArbitraryTime),
    {
        matches!(self, Self::ArbitraryTime { .. })
    }

    /// Whether the time is traceable to the primary source.
    pub fn time_traceable(&self) -> (r: bool)
        ensures
            r == self.spec_time_traceable(),
    {
        match self {
            TimeProperties::PtpTime { time_traceable, .. } => *time_traceable,
            TimeProperties::ArbitraryTime { time_traceable, .. } => *time_traceable,
        }
    }

    /// Whether the frequency is traceable to the primary source.
    pub fn frequency_traceable(&self) -> (r: bool)
        ensures
            r == self.spec_frequency_traceable(),
    {
        match self {
            TimeProperties::PtpTime { frequency_traceable, .. } => *frequency_traceable,
            TimeProperties::ArbitraryTime { frequency_traceable, .. } => *frequency_traceable,
        }
    }
}

} // verus!
