//! What a port in the master state sends: the announce message and the TLVs
//! that follow it.

use vstd::prelude::*;

use crate::{
    datastructures::{
        common::{ClockIdentity, LeapIndicator, PortIdentity, TlvType, WireTimestamp},
        datasets::{
            path_trace_get, path_trace_identities, path_trace_len, InternalCurrentDS,
            InternalDefaultDS, InternalParentDS, PathTraceDS, TimePropertiesDS,
        },
        messages::{base_header, AnnounceMessage, Header, MAX_DATA_LEN},
        wire::be_u16,
    },
    port::{actions::ForwardedTLV, bmca::{parent_of_announce, path_trace_of}, state::PortState},
    time::{Interval, Time},
};
use crate::datastructures::messages::PDelayRespMessage;
use crate::port::actions::TimestampContext;
use crate::port::measurement::PeerDelayState;
use crate::port::peer_delay::{spec_handle_peer_delay_response, PeerDelayEvent};
use crate::port::slave::{spec_handle_delay_resp, spec_handle_follow_up, spec_handle_sync};
use crate::port::state::{DelayState, SlaveState, SyncState};
use crate::datastructures::messages::timing::{
    lemma_timestamp_keeps_whole_nanos, whole_nanos, pdelay_resp_message, spec_pdelay_resp_message, delay_resp_message, follow_up_message, spec_delay_resp_message, spec_follow_up_message,
    spec_sync_message, sync_message, DelayRespMessage, FollowUpMessage, SyncMessage,
};

verus! {

/// The announce message that a port of an instance sends: its header
/// carries the instance's domain, the port and the sequence id, with the
/// leap second, UTC offset and traceability flags of the time properties;
/// its body describes the grandmaster of the parent data set, the steps
/// removed of the current data set and the time source.
pub open spec fn spec_announce_message(
    default_ds: InternalDefaultDS,
    parent_ds: InternalParentDS,
    time_properties_ds: TimePropertiesDS,
    current_ds: InternalCurrentDS,
    port_identity: PortIdentity,
    sequence_id: u16,
) -> AnnounceMessage {
    let header = Header {
        sdo_id: default_ds.sdo_id,
        domain_number: default_ds.domain_number,
        source_port_identity: port_identity,
        sequence_id,
        leap59: time_properties_ds.leap_indicator is Leap59,
        leap61: time_properties_ds.leap_indicator is Leap61,
        current_utc_offset_valid: time_properties_ds.current_utc_offset is Some,
        ptp_timescale: time_properties_ds.ptp_timescale,
        time_tracable: time_properties_ds.time_traceable,
        frequency_tracable: time_properties_ds.frequency_traceable,
        ..Header::spec_default()
    };
    AnnounceMessage {
        header,
        origin_timestamp: WireTimestamp { seconds: 0, nanos: 0 },
        current_utc_offset: match time_properties_ds.current_utc_offset {
            Some(offset) => offset,
            None => 0,
        },
        grandmaster_priority_1: parent_ds.grandmaster_priority_1,
        grandmaster_clock_quality: parent_ds.grandmaster_clock_quality,
        grandmaster_priority_2: parent_ds.grandmaster_priority_2,
        grandmaster_identity: parent_ds.grandmaster_identity,
        steps_removed: current_ds.steps_removed,
        time_source: time_properties_ds.time_source,
    }
}

/// The announce message that the port `port_identity` sends with sequence
/// id `sequence_id`.
pub fn announce_message(
    default_ds: &InternalDefaultDS,
    parent_ds: &InternalParentDS,
    time_properties_ds: &TimePropertiesDS,
    current_ds: &InternalCurrentDS,
    port_identity: PortIdentity,
    sequence_id: u16,
) -> (r: AnnounceMessage)
    ensures
        r == spec_announce_message(
            *default_ds,
            *parent_ds,
            *time_properties_ds,
            *current_ds,
            port_identity,
            sequence_id,
        ),
{
    let base = base_header(default_ds, port_identity, sequence_id);
    let header = Header {
        leap59: matches!(time_properties_ds.leap_indicator, LeapIndicator::Leap59),
        leap61: matches!(time_properties_ds.leap_indicator, LeapIndicator::Leap61),
        current_utc_offset_valid: time_properties_ds.current_utc_offset.is_some(),
        ptp_timescale: time_properties_ds.ptp_timescale,
        time_tracable: time_properties_ds.time_traceable,
        frequency_tracable: time_properties_ds.frequency_traceable,
        ..base
    };
    AnnounceMessage {
        header,
        origin_timestamp: WireTimestamp { seconds: 0, nanos: 0 },
        current_utc_offset: match time_properties_ds.current_utc_offset {
            Some(offset) => offset,
            None => 0,
        },
        grandmaster_priority_1: parent_ds.grandmaster_priority_1,
        grandmaster_clock_quality: parent_ds.grandmaster_clock_quality,
        grandmaster_priority_2: parent_ds.grandmaster_priority_2,
        grandmaster_identity: parent_ds.grandmaster_identity,
        steps_removed: current_ds.steps_removed,
        time_source: time_properties_ds.time_source,
    }
}

/// What an announce message announces is what its sender has: a receiver
/// reads from it the sender's time properties, and takes as its parent the
/// sending port with the sender's grandmaster.
pub proof fn lemma_announce_read_back(
    default_ds: InternalDefaultDS,
    parent_ds: InternalParentDS,
    time_properties_ds: TimePropertiesDS,
    current_ds: InternalCurrentDS,
    port_identity: PortIdentity,
    sequence_id: u16,
)
    ensures
        ({
            let m = spec_announce_message(
                default_ds,
                parent_ds,
                time_properties_ds,
                current_ds,
                port_identity,
                sequence_id,
            );
            &&& m.spec_time_properties() == time_properties_ds
            &&& parent_of_announce(m) == (InternalParentDS {
                parent_port_identity: port_identity,
                ..parent_ds
            })
            &&& m.steps_removed == current_ds.steps_removed
        }),
{
}

/// The bytes of a path trace: the identities one after the other, eight
/// bytes each.
pub open spec fn path_trace_bytes(ids: Seq<ClockIdentity>) -> Seq<u8> {
    Seq::new(8 * ids.len(), |k: int| ids[k / 8].0@[k % 8])
}

/// The value of the path trace TLV that a master appends to its announce
/// messages (IEEE1588-2019 section 16.2.5): the path trace list followed by
/// the instance's own clock identity, when the option is enabled and the
/// list has room for one more identity.
pub open spec fn spec_path_trace_value(
    path_trace_ds: PathTraceDS,
    clock_identity: ClockIdentity,
) -> Option<Seq<u8>> {
    let list = path_trace_identities(path_trace_ds.list);
    if path_trace_ds.enable && list.len() < 128 {
        Some(path_trace_bytes(list.push(clock_identity)))
    } else {
        None
    }
}

/// The value of the path trace TLV of an announce message of the instance
/// with the clock `clock_identity`, if it sends one.
pub fn path_trace_value(path_trace_ds: &PathTraceDS, clock_identity: ClockIdentity) -> (r: Option<
    Vec<u8>,
>)
    ensures
        match r {
            Some(v) => spec_path_trace_value(*path_trace_ds, clock_identity) == Some(v@),
            None => spec_path_trace_value(*path_trace_ds, clock_identity) is None,
        },
{
    if !path_trace_ds.enable {
        return None;
    }
    let n = path_trace_len(&path_trace_ds.list);
    if n >= 128 {
        return None;
    }
    let ghost ids = path_trace_identities(path_trace_ds.list).push(clock_identity);
    let mut value: Vec<u8> = Vec::new();
    let mut i: usize = 0;
    while i <= n
        invariant
            n == path_trace_identities(path_trace_ds.list).len(),
            n < 128,
            ids == path_trace_identities(path_trace_ds.list).push(clock_identity),
            i <= n + 1,
            value@ == path_trace_bytes(ids.take(i as int)),
        decreases n + 1 - i,
    {
        let id = if i < n {
            path_trace_get(&path_trace_ds.list, i)
        } else {
            clock_identity
        };
        assert(id == ids[i as int]);
        let ghost before = value@;
        let mut j: usize = 0;
        while j < 8
            invariant
                j <= 8,
                value@ == before + id.0@.take(j as int),
            decreases 8 - j,
        {
            value.push(id.0[j]);
            assert(id.0@.take(j + 1) =~= id.0@.take(j as int).push(id.0@[j as int]));
            j = j + 1;
        }
        assert(id.0@.take(8) =~= id.0@);
        assert(path_trace_bytes(ids.take(i + 1)) =~= path_trace_bytes(ids.take(i as int)) + id.0@)
            by {
            let a = path_trace_bytes(ids.take(i + 1));
            let b = path_trace_bytes(ids.take(i as int)) + id.0@;
            assert forall|k: int| 0 <= k < a.len() implies a[k] == b[k] by {
                assert(0 <= k / 8 <= i) by (nonlinear_arith)
                    requires
                        0 <= k < 8 * (i + 1),
                ;
                if k < 8 * i {
                    assert(k / 8 < i) by (nonlinear_arith)
                        requires
                            0 <= k < 8 * i,
                    ;
                } else {
                    assert(k / 8 == i && k % 8 == k - 8 * i) by (nonlinear_arith)
                        requires
                            8 * i <= k < 8 * (i + 1),
                    ;
                }
            }
        }
        i = i + 1;
    }
    assert(ids.take(n + 1) =~= ids);
    Some(value)
}

/// A path trace that a master sends is read back by its slaves as the
/// identities it was made of.
pub proof fn lemma_path_trace_read_back(ids: Seq<ClockIdentity>)
    ensures
        path_trace_of(path_trace_bytes(ids)) == ids,
{
    let b = path_trace_bytes(ids);
    assert(b.len() / 8 == ids.len()) by (nonlinear_arith)
        requires
            b.len() == 8 * ids.len(),
    ;
    assert forall|i: int| 0 <= i < ids.len() implies ClockIdentity::from_wire(b, 8 * i)
        == ids[i] by {
        assert(b.subrange(8 * i, 8 * i + 8) =~= ids[i].to_wire()) by {
            assert forall|j: int| 0 <= j < 8 implies b[8 * i + j] == ids[i].0@[j] by {
                assert((8 * i + j) / 8 == i && (8 * i + j) % 8 == j) by (nonlinear_arith)
                    requires
                        0 <= j < 8,
                ;
            }
        }
        ids[i].lemma_roundtrip(b, 8 * i);
    }
    assert(path_trace_of(b) =~= ids);
}

/// A TLV as it stands on the wire: its type and the length of its value as
/// big-endian 16 bit numbers, then the value.
pub open spec fn tlv_wire(tlv_type: TlvType, value: Seq<u8>) -> Seq<u8> {
    be_u16(tlv_type.primitive()) + be_u16(value.len() as u16) + value
}

/// The TLVs that follow an announce message while it is being put
/// together: the bytes written so far and the room left for more, out of
/// the `MAX_DATA_LEN` bytes that a message may take.
#[derive(Debug, Clone)]
pub struct AnnounceTlvs {
    /// Bytes of the TLVs written so far.
    pub bytes: Vec<u8>,
    /// Room left in the message for more TLVs.
    pub margin: usize,
}

impl AnnounceTlvs {
    /// No TLVs yet after a message of `message_wire_size` bytes.
    pub fn new(message_wire_size: usize) -> (r: Self)
        requires
            message_wire_size <= MAX_DATA_LEN,
        ensures
            r.bytes@ == Seq::<u8>::empty(),
            r.margin == MAX_DATA_LEN - message_wire_size,
    {
        AnnounceTlvs { bytes: Vec::new(), margin: MAX_DATA_LEN - message_wire_size }
    }

    /// Appends a TLV.
    fn append(&mut self, tlv_type: TlvType, value: &[u8])
        requires
            4 + value@.len() < old(self).margin,
            old(self).margin <= MAX_DATA_LEN,
        ensures
            final(self).bytes@ == old(self).bytes@ + tlv_wire(tlv_type, value@),
            final(self).margin == old(self).margin - (4 + value@.len()),
    {
        let t = tlv_type.to_primitive();
        let len = value.len() as u16;
        self.bytes.push((t >> 8u16) as u8);
        self.bytes.push(t as u8);
        self.bytes.push((len >> 8u16) as u8);
        self.bytes.push(len as u8);
        let ghost head = self.bytes@;
        let mut i: usize = 0;
        while i < value.len()
            invariant
                i <= value@.len(),
                self.bytes@ == head + value@.take(i as int),
                self.margin == old(self).margin,
                4 + value@.len() < old(self).margin,
            decreases value.len() - i,
        {
            self.bytes.push(value[i]);
            assert(value@.take(i + 1) =~= value@.take(i as int).push(value@[i as int]));
            i = i + 1;
        }
        assert(value@.take(value@.len() as int) =~= value@);
        assert(head =~= old(self).bytes@ + be_u16(t) + be_u16(len));
        self.margin = self.margin - (4 + value.len());
    }

    /// Adds the path trace TLV with value `value`, when it fits in the room
    /// left; says whether it did.
    pub fn add_path_trace(&mut self, value: &[u8]) -> (added: bool)
        requires
            old(self).margin <= MAX_DATA_LEN,
        ensures
            added == (4 + value@.len() < old(self).margin),
            added ==> final(self).bytes@ == old(self).bytes@ + tlv_wire(TlvType::PathTrace, value@)
                && final(self).margin == old(self).margin - (4 + value@.len()),
            !added ==> *final(self) == *old(self),
            final(self).bytes@.len() + final(self).margin == old(self).bytes@.len() + old(self).margin,
    {
        if value.len() < self.margin && 4 + value.len() < self.margin {
            self.append(TlvType::PathTrace, value);
            true
        } else {
            false
        }
    }

    /// Offers a TLV received by another port, which the forwarded TLV
    /// provider handed out because it is smaller than the room left. It is
    /// forwarded when it came from the parent port of the instance, unless
    /// it is a path trace TLV while the path trace option is enabled: the
    /// instance sends its own path trace then. Says whether it was added.
    pub fn offer(
        &mut self,
        tlv: &ForwardedTLV,
        parent_port_identity: PortIdentity,
        path_trace_enabled: bool,
    ) -> (added: bool)
        requires
            4 + tlv.value@.len() < old(self).margin,
            old(self).margin <= MAX_DATA_LEN,
        ensures
            added == (tlv.sender_identity == parent_port_identity && !(path_trace_enabled
                && tlv.tlv_type is PathTrace)),
            added ==> final(self).bytes@ == old(self).bytes@ + tlv_wire(tlv.tlv_type, tlv.value@)
                && final(self).margin == old(self).margin - (4 + tlv.value@.len()),
            !added ==> *final(self) == *old(self),
            final(self).bytes@.len() + final(self).margin == old(self).bytes@.len() + old(self).margin,
    {
        if !tlv.sender_identity.same_as(&parent_port_identity) {
            return false;
        }
        if path_trace_enabled && matches!(tlv.tlv_type, TlvType::PathTrace) {
            return false;
        }
        self.append(tlv.tlv_type, tlv.value.as_slice());
        true
    }
}

/// The sync message that the port sends with sequence id `sequence_id`,
/// when it is a master; other ports send none.
pub fn send_sync(
    port_state: &PortState,
    default_ds: &InternalDefaultDS,
    port_identity: PortIdentity,
    sequence_id: u16,
) -> (r: Option<(Header, SyncMessage)>)
    ensures
        r == if *port_state is Master {
            Some(spec_sync_message(*default_ds, port_identity, sequence_id))
        } else {
            None
        },
{
    if matches!(port_state, PortState::Master) {
        Some(sync_message(default_ds, port_identity, sequence_id))
    } else {
        None
    }
}

/// The follow up that a master sends once it knows the send time
/// `timestamp` of its sync with sequence id `id`; a port that is no longer
/// a master sends none.
pub fn handle_sync_timestamp(
    port_state: &PortState,
    default_ds: &InternalDefaultDS,
    port_identity: PortIdentity,
    id: u16,
    timestamp: Time,
) -> (r: Option<(Header, FollowUpMessage)>)
    requires
        timestamp.bits >= 0,
    ensures
        r == if *port_state is Master {
            Some(spec_follow_up_message(*default_ds, port_identity, id, timestamp))
        } else {
            None
        },
{
    if matches!(port_state, PortState::Master) {
        Some(follow_up_message(default_ds, port_identity, id, timestamp))
    } else {
        None
    }
}

/// The delay response that a master gives to the delay request with header
/// `request`, received at `timestamp`; other ports do not answer.
pub fn handle_delay_req(
    port_state: &PortState,
    request: &Header,
    port_identity: PortIdentity,
    min_delay_req_interval: Interval,
    timestamp: Time,
) -> (r: Option<(Header, DelayRespMessage)>)
    requires
        timestamp.bits >= 0,
        request.correction_field.bits() + (timestamp.bits % 0x1_0000_0000) / 0x1_0000 <= i64::MAX,
    ensures
        r == if *port_state is Master {
            Some(spec_delay_resp_message(*request, port_identity, min_delay_req_interval, timestamp))
        } else {
            None
        },
{
    if matches!(port_state, PortState::Master) {
        Some(delay_resp_message(request, port_identity, min_delay_req_interval, timestamp))
    } else {
        None
    }
}

/// The peer delay response that the port `port_identity` sends to the peer
/// delay request with header `request`, received at `timestamp`, and the
/// context under which its send timestamp comes back: every port answers.
pub fn handle_pdelay_req(
    default_ds: &InternalDefaultDS,
    port_identity: PortIdentity,
    request: &Header,
    timestamp: Time,
) -> (r: ((Header, PDelayRespMessage), TimestampContext))
    requires
        timestamp.bits >= 0,
    ensures
        r.0 == spec_pdelay_resp_message(*default_ds, port_identity, *request, timestamp),
        r.1.spec_pdelay_resp() == Some((request.sequence_id, request.source_port_identity)),
{
    let message = pdelay_resp_message(default_ds, port_identity, request, timestamp);
    let context = TimestampContext::pdelay_resp(request.sequence_id, request.source_port_identity);
    (message, context)
}

/// A peer delay response answers the port that sent the request: it names
/// that port as the requesting port, carries the request's sequence id and
/// comes from the responder, two step. The requesting port, measuring that
/// request and not yet answered, takes the response into its measurement
/// and records the responder; any other port ignores it.
pub proof fn lemma_pdelay_response_answers_requester(
    default_ds: InternalDefaultDS,
    responder: PortIdentity,
    request: Header,
    receive_time: Time,
    ps: PortState,
    other: PortIdentity,
    request_send_time: Option<Time>,
    request_recv_time: Option<Time>,
    response_send_time: Option<Time>,
    recv: Time,
)
    requires
        other != request.source_port_identity,
    ensures
        ({
            let (h, b) = spec_pdelay_resp_message(default_ds, responder, request, receive_time);
            let pd = PeerDelayState::Measuring {
                id: request.sequence_id,
                responder_identity: None,
                request_send_time,
                request_recv_time,
                response_send_time,
                response_recv_time: None,
            };
            let at_requester = spec_handle_peer_delay_response(
                pd,
                ps,
                request.source_port_identity,
                h,
                b.request_receive_timestamp,
                b.requesting_port_identity,
                recv,
            );
            &&& b.requesting_port_identity == request.source_port_identity
            &&& h.sequence_id == request.sequence_id
            &&& h.source_port_identity == responder
            &&& h.two_step_flag
            &&& at_requester.2 == PeerDelayEvent::Measure
            &&& at_requester.0 matches PeerDelayState::Measuring { responder_identity, .. }
                && responder_identity == Some(responder)
            &&& at_requester.1 == ps
            &&& spec_handle_peer_delay_response(
                pd,
                ps,
                other,
                h,
                b.request_receive_timestamp,
                b.requesting_port_identity,
                recv,
            ).2 == PeerDelayEvent::Ignored
        }),
{
}

/// The requesting port takes as the time at which the responder received
/// its request that receive time, to the whole nanosecond.
pub proof fn lemma_requester_learns_request_receive_time(
    default_ds: InternalDefaultDS,
    responder: PortIdentity,
    request: Header,
    receive_time: Time,
    ps: PortState,
    request_send_time: Option<Time>,
    request_recv_time: Option<Time>,
    response_send_time: Option<Time>,
    recv: Time,
)
    requires
        receive_time.bits >= 0,
        whole_nanos(receive_time) < 1_000_000_000 * 0x1_0000_0000_0000_0000,
    ensures
        ({
            let (h, b) = spec_pdelay_resp_message(default_ds, responder, request, receive_time);
            let pd = PeerDelayState::Measuring {
                id: request.sequence_id,
                responder_identity: None,
                request_send_time,
                request_recv_time,
                response_send_time,
                response_recv_time: None,
            };
            let at_requester = spec_handle_peer_delay_response(
                pd,
                ps,
                request.source_port_identity,
                h,
                b.request_receive_timestamp,
                b.requesting_port_identity,
                recv,
            );
            at_requester.0 matches PeerDelayState::Measuring { request_recv_time: learned, .. }
                && learned matches Some(l) && l.bits == receive_time.bits - receive_time.bits
                % 0x1_0000_0000
        }),
{
    lemma_timestamp_keeps_whole_nanos(receive_time);
}

/// A delay response answers the port that sent the request: it names that
/// port as the requesting port, carries the request's sequence id and comes
/// from the responder, one step. A slave of the responder that sent the
/// request and waits for its answer takes the response into its delay
/// measurement; any other port does not.
pub proof fn lemma_delay_response_answers_requester(
    request: Header,
    responder: PortIdentity,
    min_delay_req_interval: Interval,
    receive_time: Time,
    s: SlaveState,
    send_time: Option<Time>,
    other: PortIdentity,
)
    requires
        s.remote_master == responder,
        s.delay_state == (DelayState::Measuring {
            id: request.sequence_id,
            send_time,
            recv_time: None,
        }),
        other != request.source_port_identity,
    ensures
        ({
            let (h, b) = spec_delay_resp_message(request, responder, min_delay_req_interval, receive_time);
            &&& b.requesting_port_identity == request.source_port_identity
            &&& h.sequence_id == request.sequence_id
            &&& h.source_port_identity == responder
            &&& !h.two_step_flag
            &&& h.log_message_interval == min_delay_req_interval.log_2()
            &&& spec_handle_delay_resp(
                PortState::Slave(s),
                request.source_port_identity,
                h,
                b.receive_timestamp,
                b.requesting_port_identity,
            ).1
            &&& spec_handle_delay_resp(PortState::Slave(s), other, h, b.receive_timestamp, b.requesting_port_identity)
                == (PortState::Slave(s), false)
        }),
{
}

/// A master's two step sync and its follow up belong together: the follow
/// up carries the sync's sequence id and sender, and a slave of that master
/// that received the sync completes its measurement with the follow up.
pub proof fn lemma_follow_up_completes_sync(
    default_ds: InternalDefaultDS,
    master: PortIdentity,
    sequence_id: u16,
    send_time: Time,
    recv_time: Time,
    s: SlaveState,
)
    requires
        s.remote_master == master,
        s.sync_state == SyncState::Empty,
    ensures
        ({
            let (sh, sb) = spec_sync_message(default_ds, master, sequence_id);
            let (fh, fb) = spec_follow_up_message(default_ds, master, sequence_id, send_time);
            let after_sync = spec_handle_sync(PortState::Slave(s), sh, sb.origin_timestamp, recv_time);
            &&& sh.two_step_flag
            &&& fh.sequence_id == sh.sequence_id
            &&& fh.source_port_identity == sh.source_port_identity
            &&& !after_sync.1
            &&& spec_handle_follow_up(after_sync.0, fh, fb.precise_origin_timestamp).1
        }),
{
}

} // verus!
