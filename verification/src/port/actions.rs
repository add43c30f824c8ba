use vstd::prelude::*;

use crate::datastructures::common::{PortIdentity, TlvType};
use crate::filters::FilterUpdate;

verus! {

/// TLV that needs to be forwarded in the announce messages of other ports.
#[derive(Debug, Clone)]
pub struct ForwardedTLV {
    /// Type of the TLV.
    pub tlv_type: TlvType,
    /// Value of the TLV.
    pub value: Vec<u8>,
    /// The port that sent the message that carried the TLV.
    pub sender_identity: PortIdentity,
}

impl ForwardedTLV {
    /// Wire size of the TLV: four bytes of type and length, then the value.
    /// Can be used to determine how many TLV's to keep.
    pub fn size(&self) -> (r: usize)
        requires
            4 + self.value@.len() <= usize::MAX,
        ensures
            r == 4 + self.value@.len(),
    {
        4 + self.value.len()
    }

    /// Get an owned version of the struct: it owns its value already.
    pub fn into_owned(self) -> (r: ForwardedTLV)
        ensures
            r == self,
    {
        self
    }
}

/// Source of TLVs that need to be forwarded, provided to announce sender.
pub trait ForwardedTLVProvider {
    /// Should provide the next available TLV, unless it is larger than max_size
    fn next_if_smaller(&mut self, max_size: usize) -> Option<ForwardedTLV>;
}

/// Source of forwarded TLVs that has none: nothing is forwarded in the
/// announce messages of other ports.
#[derive(Debug, Copy, Clone)]
pub struct NoForwardedTLVs;

impl ForwardedTLVProvider for NoForwardedTLVs {
    fn next_if_smaller(&mut self, max_size: usize) -> Option<ForwardedTLV> {
        None
    }
}

/// Identification of a packet that should be sent out.
///
/// The caller receives this with a packet to send and returns it to the port
/// once the transmit timestamp of that packet is known.
///
/// This type is non-copy and non-clone on purpose to ensures a single
/// timestamp is handled per packet sent.
#[derive(Debug)]
pub struct TimestampContext {
    pub(crate) inner: TimestampContextInner,
}

impl TimestampContext {
    /// The sequence id and the requesting port of the peer delay response
    /// that the context identifies, if it identifies one.
    pub closed spec fn spec_pdelay_resp(self) -> Option<(u16, PortIdentity)> {
        match self.inner {
            TimestampContextInner::PDelayResp { id, requestor_identity } => Some((id, requestor_identity)),
            _ => None,
        }
    }

    /// The context of the peer delay response with sequence id `id` to the
    /// port `requestor_identity`.
    pub fn pdelay_resp(id: u16, requestor_identity: PortIdentity) -> (r: TimestampContext)
        ensures
            r.spec_pdelay_resp() == Some((id, requestor_identity)),
    {
        TimestampContext { inner: TimestampContextInner::PDelayResp { id, requestor_identity } }
    }

    /// The sequence id and the requesting port of the peer delay response
    /// that the context identifies, if it identifies one.
    pub fn as_pdelay_resp(&self) -> (r: Option<(u16, PortIdentity)>)
        ensures
            r == self.spec_pdelay_resp(),
    {
        match self.inner {
            TimestampContextInner::PDelayResp { id, requestor_identity } => Some((id, requestor_identity)),
            _ => None,
        }
    }
}

/// Which packet a [`TimestampContext`] identifies.
#[derive(Debug)]
pub(crate) enum TimestampContextInner {
    Sync { id: u16 },
    DelayReq { id: u16 },
    PDelayReq { id: u16 },
    PDelayResp { id: u16, requestor_identity: PortIdentity },
}

/// An action the port needs the user to perform
#[derive(Debug)]
pub enum PortAction<'a> {
    /// Send a time-critical packet
    ///
    /// Once the packet is sent and the transmit timestamp known the user should
    /// return the given [`TimestampContext`] to the port.
    ///
    /// Packets marked as link local should be sent per the instructions
    /// for sending peer to peer delay mechanism messages of the relevant
    /// transport specification of PTP.
    SendEvent {
        /// Identification of the packet, to return with its timestamp.
        context: TimestampContext,
        /// The packet.
        data: &'a [u8],
        /// Whether the packet is link local.
        link_local: bool,
    },
    /// Send a general packet
    ///
    /// For a packet sent this way no timestamp needs to be captured.
    SendGeneral {
        /// The packet.
        data: &'a [u8],
        /// Whether the packet is link local.
        link_local: bool,
    },
    /// Call the announce timer handler in `duration` from now
    ResetAnnounceTimer {
        /// Time until the call.
        duration: core::time::Duration,
    },
    /// Call the sync timer handler in `duration` from now
    ResetSyncTimer {
        /// Time until the call.
        duration: core::time::Duration,
    },
    /// Call the delay request timer handler in `duration` from now
    ResetDelayRequestTimer {
        /// Time until the call.
        duration: core::time::Duration,
    },
    /// Call the announce receipt timer handler in `duration` from now
    ResetAnnounceReceiptTimer {
        /// Time until the call.
        duration: core::time::Duration,
    },
    /// Call the filter update timer handler in `duration` from now
    ResetFilterUpdateTimer {
        /// Time until the call.
        duration: core::time::Duration,
    },
    /// Forward this TLV to the announce timer call of all other ports.
    /// The receiver must ensure the TLV is yielded only once to the announce
    /// method of a port.
    ///
    /// This can be ignored when implementing a single port or slave only ptp
    /// instance.
    ForwardTLV {
        /// The TLV.
        tlv: ForwardedTLV,
    },
}

/// The action that a filter update asks for: to be called again after its
/// `next_update`, if it has one.
pub fn filter_update_action(update: &FilterUpdate) -> (r: Option<PortAction<'static>>)
    ensures
        match update.next_update {
            Some(duration) => r matches Some(PortAction::ResetFilterUpdateTimer { duration: d }) && d
                == duration,
            None => r is None,
        },
{
    match update.next_update {
        Some(duration) => Some(PortAction::ResetFilterUpdateTimer { duration }),
        None => None,
    }
}

} // verus!
