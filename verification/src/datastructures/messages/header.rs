use vstd::prelude::*;

use super::SdoId;
use crate::datastructures::common::{i48f16_of_bits, zero_time_interval, PortIdentity, TimeInterval};

verus! {

/// The header of a PTP version 2 message (IEEE1588-2019 section 13.3).
#[derive(Debug, Clone, Copy, PartialEq, Eq)]
pub struct Header {
    /// Standards organization id of the domain of the sender.
    pub sdo_id: SdoId,
    /// Domain number of the sender.
    pub domain_number: u8,
    /// The sender is an alternate master.
    pub alternate_master_flag: bool,
    /// The sender sends a follow up message for this message.
    pub two_step_flag: bool,
    /// The message is sent unicast.
    pub unicast_flag: bool,
    /// Flag defined by the PTP profile.
    pub ptp_profile_specific_1: bool,
    /// Flag defined by the PTP profile.
    pub ptp_profile_specific_2: bool,
    /// The last minute of this UTC day has 61 seconds.
    pub leap61: bool,
    /// The last minute of this UTC day has 59 seconds.
    pub leap59: bool,
    /// The UTC offset announced is valid.
    pub current_utc_offset_valid: bool,
    /// The timescale of the grandmaster is PTP.
    pub ptp_timescale: bool,
    /// The time is traceable to a primary reference.
    pub time_tracable: bool,
    /// The frequency is traceable to a primary reference.
    pub frequency_tracable: bool,
    /// The synchronization is uncertain.
    pub synchronization_uncertain: bool,
    /// Correction of the time of the message, in nanoseconds.
    pub correction_field: TimeInterval,
    /// Port that sent the message.
    pub source_port_identity: PortIdentity,
    /// Sequence id of the message.
    pub sequence_id: u16,
    /// 2-log of the interval between messages of this kind, in seconds.
    pub log_message_interval: i8,
}

impl Header {
    /// The header that all fields not given take their values from: no flags,
    /// no correction, the default domain and port.
    pub open spec fn spec_default() -> Header {
        Header {
            sdo_id: SdoId::spec_default(),
            domain_number: 0,
            alternate_master_flag: false,
            two_step_flag: false,
            unicast_flag: false,
            ptp_profile_specific_1: false,
            ptp_profile_specific_2: false,
            leap61: false,
            leap59: false,
            current_utc_offset_valid: false,
            ptp_timescale: false,
            time_tracable: false,
            frequency_tracable: false,
            synchronization_uncertain: false,
            correction_field: TimeInterval(i48f16_of_bits(0)),
            source_port_identity: PortIdentity::spec_default(),
            sequence_id: 0,
            log_message_interval: 0,
        }
    }

    /// The port that sent the message.
    pub fn source_port_identity(&self) -> (r: PortIdentity)
        ensures
            r == self.source_port_identity,
    {
        self.source_port_identity
    }
}

impl Default for Header {
    fn default() -> (r: Self)
        ensures
            r == Header::spec_default(),
    {
        Header {
            sdo_id: SdoId::default(),
            domain_number: 0,
            alternate_master_flag: false,
            two_step_flag: false,
            unicast_flag: false,
            ptp_profile_specific_1: false,
            ptp_profile_specific_2: false,
            leap61: false,
            leap59: false,
            current_utc_offset_valid: false,
            ptp_timescale: false,
            time_tracable: false,
            frequency_tracable: false,
            synchronization_uncertain: false,
            correction_field: zero_time_interval(),
            source_port_identity: PortIdentity::default(),
            sequence_id: 0,
            log_message_interval: 0,
        }
    }
}

} // verus!
