use vstd::prelude::*;

verus! {

/// See 14.1.1 / Table 52
#[derive(Debug, Clone, Copy, PartialEq, Eq)]
pub enum TlvType {
    /// Reserved value
    Reserved,
    /// Management TLV
    Management,
    /// Management error status TLV
    ManagementErrorStatus,
    /// Organization extension TLV
    OrganizationExtension,
    /// Request unicast transmission TLV
    RequestUnicastTransmission,
    /// Grant unicast transmission TLV
    GrantUnicastTransmission,
    /// Cancel unicast transmission TLV
    CancelUnicastTransmission,
    /// Acknowledge cancel unicast transmission TLV
    AcknowledgeCancelUnicastTransmission,
    /// Path trace TLV
    PathTrace,
    /// Alternate time offset indicator TLV
    AlternateTimeOffsetIndicator,
    /// Legacy TLV
    Legacy,
    /// Experimental TLV
    Experimental,
    /// Organization extension TLV that is propagated
    OrganizationExtensionPropagate,
    /// Enhanced accuracy metrics TLV
    EnhancedAccuracyMetrics,
    /// Organization extension TLV that is not propagated
    OrganizationExtensionDoNotPropagate,
    /// L1 sync TLV
    L1Sync,
    /// Port communication availability TLV
    PortCommunicationAvailability,
    /// Protocol address TLV
    ProtocolAddress,
    /// Slave receive sync timing data TLV
    SlaveRxSyncTimingData,
    /// Slave receive sync computed data TLV
    SlaveRxSyncComputedData,
    /// Slave transmit event timestamps TLV
    SlaveTxEventTimestamps,
    /// Cumulative rate ratio TLV
    CumulativeRateRatio,
    /// Pad TLV
    Pad,
    /// Authentication TLV
    Authentication,
}

impl TlvType {
    /// The value of this type on the wire.
    pub open spec fn primitive(self) -> u16 {
        match self {
            TlvType::Reserved => 0x0000,
            TlvType::Management => 0x0001,
            TlvType::ManagementErrorStatus => 0x0002,
            TlvType::OrganizationExtension => 0x0003,
            TlvType::RequestUnicastTransmission => 0x0004,
            TlvType::GrantUnicastTransmission => 0x0005,
            TlvType::CancelUnicastTransmission => 0x0006,
            TlvType::AcknowledgeCancelUnicastTransmission => 0x0007,
            TlvType::PathTrace => 0x0008,
            TlvType::AlternateTimeOffsetIndicator => 0x0009,
            TlvType::Legacy => 0x2000,
            TlvType::Experimental => 0x2004,
            TlvType::OrganizationExtensionPropagate => 0x4000,
            TlvType::EnhancedAccuracyMetrics => 0x4001,
            TlvType::OrganizationExtensionDoNotPropagate => 0x8000,
            TlvType::L1Sync => 0x8001,
            TlvType::PortCommunicationAvailability => 0x8002,
            TlvType::ProtocolAddress => 0x8003,
            TlvType::SlaveRxSyncTimingData => 0x8004,
            TlvType::SlaveRxSyncComputedData => 0x8005,
            TlvType::SlaveTxEventTimestamps => 0x8006,
            TlvType::CumulativeRateRatio => 0x8007,
            TlvType::Pad => 0x8008,
            TlvType::Authentication => 0x8009,
        }
    }

    /// The type named by a value on the wire: the ranges of table 52, with
    /// every value that names no type read as `Reserved`.
    pub open spec fn from_value(value: u16) -> TlvType {
        if value == 0x0001 {
            TlvType::Management
        } else if value == 0x0002 {
            TlvType::ManagementErrorStatus
        } else if value == 0x0003 {
            TlvType::OrganizationExtension
        } else if value == 0x0004 {
            TlvType::RequestUnicastTransmission
        } else if value == 0x0005 {
            TlvType::GrantUnicastTransmission
        } else if value == 0x0006 {
            TlvType::CancelUnicastTransmission
        } else if value == 0x0007 {
            TlvType::AcknowledgeCancelUnicastTransmission
        } else if value == 0x0008 {
            TlvType::PathTrace
        } else if value == 0x0009 {
            TlvType::AlternateTimeOffsetIndicator
        } else if 0x2000 <= value <= 0x2003 {
            TlvType::Legacy
        } else if (0x2004 <= value <= 0x202F) || (0x7F00 <= value <= 0x7FFF) {
            TlvType::Experimental
        } else if value == 0x4000 {
            TlvType::OrganizationExtensionPropagate
        } else if value == 0x4001 {
            TlvType::EnhancedAccuracyMetrics
        } else if 0x8000 <= value <= 0x8009 {
            match value {
                0x8000 => TlvType::OrganizationExtensionDoNotPropagate,
                0x8001 => TlvType::L1Sync,
                0x8002 => TlvType::PortCommunicationAvailability,
                0x8003 => TlvType::ProtocolAddress,
                0x8004 => TlvType::SlaveRxSyncTimingData,
                0x8005 => TlvType::SlaveRxSyncComputedData,
                0x8006 => TlvType::SlaveTxEventTimestamps,
                0x8007 => TlvType::CumulativeRateRatio,
                0x8008 => TlvType::Pad,
                _ => TlvType::Authentication,
            }
        } else {
            TlvType::Reserved
        }
    }

    /// The value of this type on the wire.
    pub fn to_primitive(&self) -> (r: u16)
        ensures
            r == self.primitive(),
    {
        match self {
            Self::Reserved => 0x0000,
            Self::Management => 0x0001,
            Self::ManagementErrorStatus => 0x0002,
            Self::OrganizationExtension => 0x0003,
            Self::RequestUnicastTransmission => 0x0004,
            Self::GrantUnicastTransmission => 0x0005,
            Self::CancelUnicastTransmission => 0x0006,
            Self::AcknowledgeCancelUnicastTransmission => 0x0007,
            Self::PathTrace => 0x0008,
            Self::AlternateTimeOffsetIndicator => 0x0009,
            Self::Legacy => 0x2000,
            Self::Experimental => 0x2004,
            Self::OrganizationExtensionPropagate => 0x4000,
            Self::EnhancedAccuracyMetrics => 0x4001,
            Self::OrganizationExtensionDoNotPropagate => 0x8000,
            Self::L1Sync => 0x8001,
            Self::PortCommunicationAvailability => 0x8002,
            Self::ProtocolAddress => 0x8003,
            Self::SlaveRxSyncTimingData => 0x8004,
            Self::SlaveRxSyncComputedData => 0x8005,
            Self::SlaveTxEventTimestamps => 0x8006,
            Self::CumulativeRateRatio => 0x8007,
            Self::Pad => 0x8008,
            Self::Authentication => 0x8009,
        }
    }

    /// The type named by a value on the wire.
    pub fn from_primitive(value: u16) -> (r: Self)
        ensures
            r == Self::from_value(value),
    {
        match value {
            0x0000 | 0x000A..=0x1FFF | 0x2030..=0x3FFF | 0x4002..=0x7EFF | 0x800A..=0xFFEF
            | 0xFFF0..=0xFFFF => Self::Reserved,
            0x2000..=0x2003 => Self::Legacy,
            0x2004..=0x202F | 0x7F00..=0x7FFF => Self::Experimental,
            0x0001 => Self::Management,
            0x0002 => Self::ManagementErrorStatus,
            0x0003 => Self::OrganizationExtension,
            0x0004 => Self::RequestUnicastTransmission,
            0x0005 => Self::GrantUnicastTransmission,
            0x0006 => Self::CancelUnicastTransmission,
            0x0007 => Self::AcknowledgeCancelUnicastTransmission,
            0x0008 => Self::PathTrace,
            0x0009 => Self::AlternateTimeOffsetIndicator,
            0x4000 => Self::OrganizationExtensionPropagate,
            0x4001 => Self::EnhancedAccuracyMetrics,
            0x8000 => Self::OrganizationExtensionDoNotPropagate,
            0x8001 => Self::L1Sync,
            0x8002 => Self::PortCommunicationAvailability,
            0x8003 => Self::ProtocolAddress,
            0x8004 => Self::SlaveRxSyncTimingData,
            0x8005 => Self::SlaveRxSyncComputedData,
            0x8006 => Self::SlaveTxEventTimestamps,
            0x8007 => Self::CumulativeRateRatio,
            0x8008 => Self::Pad,
            0x8009 => Self::Authentication,
        }
    }

    /// Reading back the value of a type gives the type.
    pub proof fn lemma_roundtrip(t: TlvType)
        ensures
            Self::from_value(t.primitive()) == t,
    {
    }
}

impl Default for TlvType {
    fn default() -> (r: Self)
        ensures
            r == TlvType::Management,
    {
        Self::Management
    }
}

} // verus!
