use vstd::prelude::*;

use super::Header;
use crate::datastructures::common::{ClockIdentity, ClockQuality, LeapIndicator, TimeSource, WireTimestamp};
use crate::datastructures::datasets::TimePropertiesDS;

verus! {

/// The body of an announce message: the description of the grandmaster of
/// the sender (IEEE1588-2019 section 13.5).
#[derive(Debug, Clone, Copy, PartialEq, Eq)]
pub struct AnnounceMessage {
    /// The header of the message.
    pub header: Header,
    /// Time at which the message was sent.
    pub origin_timestamp: WireTimestamp,
    /// Offset of UTC to TAI in seconds.
    pub current_utc_offset: i16,
    /// Priority 1 of the grandmaster.
    pub grandmaster_priority_1: u8,
    /// Quality of the clock of the grandmaster.
    pub grandmaster_clock_quality: ClockQuality,
    /// Priority 2 of the grandmaster.
    pub grandmaster_priority_2: u8,
    /// Identity of the grandmaster.
    pub grandmaster_identity: ClockIdentity,
    /// Number of steps between the sender and the grandmaster.
    pub steps_removed: u16,
    /// Source of the time of the grandmaster.
    pub time_source: TimeSource,
}

impl AnnounceMessage {
    /// The time properties that the message announces: the leap second
    /// flags and the traceability flags of its header, the UTC offset when
    /// the header marks it valid, and the time source of the grandmaster.
    pub open spec fn spec_time_properties(self) -> TimePropertiesDS {
        TimePropertiesDS {
            current_utc_offset: if self.header.current_utc_offset_valid {
                Some(self.current_utc_offset)
            } else {
                None
            },
            leap_indicator: if self.header.leap59 {
                LeapIndicator::Leap59
            } else if self.header.leap61 {
                LeapIndicator::Leap61
            } else {
                LeapIndicator::NoLeap
            },
            time_traceable: self.header.time_tracable,
            frequency_traceable: self.header.frequency_tracable,
            ptp_timescale: self.header.ptp_timescale,
            time_source: self.time_source,
        }
    }

    /// The time properties that the message announces.
    pub fn time_properties(&self) -> (r: TimePropertiesDS)
        ensures
            r == self.spec_time_properties(),
    {
        let leap_indicator = if self.header.leap59 {
            LeapIndicator::Leap59
        } else if self.header.leap61 {
            LeapIndicator::Leap61
        } else {
            LeapIndicator::NoLeap
        };
        let current_utc_offset = if self.header.current_utc_offset_valid {
            Some(self.current_utc_offset)
        } else {
            None
        };
        TimePropertiesDS {
            current_utc_offset,
            leap_indicator,
            time_traceable: self.header.time_tracable,
            frequency_traceable: self.header.frequency_tracable,
            ptp_timescale: self.header.ptp_timescale,
            time_source: self.time_source,
        }
    }

    /// The header of the message.
    pub fn header(&self) -> (r: &Header)
        ensures
            *r == self.header,
    {
        &self.header
    }
}

} // verus!
