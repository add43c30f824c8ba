//! The timing messages that a port sends: sync and follow up as a master,
//! delay request as a slave, and the delay response that answers one. Each
//! is made as its header and its body.

use vstd::prelude::*;

use super::{base_header, Header, PDelayRespFollowUpMessage, PDelayRespMessage};
use crate::datastructures::{
    common::{i48f16_of_bits, PortIdentity, TimeInterval, WireTimestamp},
    datasets::InternalDefaultDS,
};
use crate::time::{timestamp_bits, Interval, Time};

verus! {

/// The body of a sync message (IEEE1588-2019 section 13.6).
#[derive(Debug, Clone, Copy, PartialEq, Eq)]
pub struct SyncMessage {
    /// Time at which the message was sent; zero in a two step sync.
    pub origin_timestamp: WireTimestamp,
}

/// The body of a follow up message (IEEE1588-2019 section 13.7).
#[derive(Debug, Clone, Copy, PartialEq, Eq)]
pub struct FollowUpMessage {
    /// Time at which the sync it follows was sent.
    pub precise_origin_timestamp: WireTimestamp,
}

/// The body of a delay request message (IEEE1588-2019 section 13.6).
#[derive(Debug, Clone, Copy, PartialEq, Eq)]
pub struct DelayReqMessage {
    /// Time at which the message was sent; zero, the port sends it as an
    /// event and learns the time from its timestamp.
    pub origin_timestamp: WireTimestamp,
}

/// The body of a delay response message (IEEE1588-2019 section 13.8).
#[derive(Debug, Clone, Copy, PartialEq, Eq)]
pub struct DelayRespMessage {
    /// Time at which the request was received.
    pub receive_timestamp: WireTimestamp,
    /// The port that sent the request.
    pub requesting_port_identity: PortIdentity,
}

/// The whole nanoseconds of a time.
pub open spec fn whole_nanos(t: Time) -> int {
    t.bits / 0x1_0000_0000
}

/// The timestamp of a time: its whole seconds and the whole nanoseconds
/// below a second (the seconds taken to 64 bits).
pub open spec fn timestamp_of(t: Time) -> WireTimestamp {
    WireTimestamp {
        seconds: (whole_nanos(t) / 1_000_000_000) as u64,
        nanos: (whole_nanos(t) % 1_000_000_000) as u32,
    }
}

/// The part of a nanosecond of a time, as an interval: its 32 fractional
/// bits taken to the 16 of an interval.
pub open spec fn subnano_of(t: Time) -> TimeInterval {
    TimeInterval(i48f16_of_bits(((t.bits % 0x1_0000_0000) / 0x1_0000) as i64))
}

/// The timestamp of a non-negative time keeps its whole nanoseconds: its
/// nanoseconds stay below a second, and the time it stands for is the time
/// without its part of a nanosecond (where the seconds fit in 64 bits).
pub proof fn lemma_timestamp_keeps_whole_nanos(t: Time)
    requires
        t.bits >= 0,
        whole_nanos(t) < 1_000_000_000 * 0x1_0000_0000_0000_0000,
    ensures
        timestamp_of(t).nanos < 1_000_000_000,
        timestamp_bits(timestamp_of(t)) == t.bits - t.bits % 0x1_0000_0000,
{
    let n = whole_nanos(t);
    assert(t.bits == n * 0x1_0000_0000 + t.bits % 0x1_0000_0000) by (nonlinear_arith)
        requires
            n == t.bits / 0x1_0000_0000,
    ;
    assert(n == (n / 1_000_000_000) * 1_000_000_000 + n % 1_000_000_000) by (nonlinear_arith)
        requires
            n >= 0,
    ;
    assert(0 <= n / 1_000_000_000 < 0x1_0000_0000_0000_0000) by (nonlinear_arith)
        requires
            0 <= n < 1_000_000_000 * 0x1_0000_0000_0000_0000,
    ;
}

/// The timestamp of a time (see [`timestamp_of`]).
pub fn timestamp(t: Time) -> (r: WireTimestamp)
    requires
        t.bits >= 0,
    ensures
        r == timestamp_of(t),
{
    let n: i128 = t.bits / 0x1_0000_0000;
    WireTimestamp { seconds: (n / 1_000_000_000) as u64, nanos: (n % 1_000_000_000) as u32 }
}

/// The part of a nanosecond of a time (see [`subnano_of`]).
pub fn subnano(t: Time) -> (r: TimeInterval)
    requires
        t.bits >= 0,
    ensures
        r == subnano_of(t),
        r.bits() == (t.bits % 0x1_0000_0000) / 0x1_0000,
{
    let f: i128 = (t.bits % 0x1_0000_0000) / 0x1_0000;
    TimeInterval::from_bits(f as i64)
}

/// The two step sync message that the port `port_identity` of an instance
/// sends with sequence id `sequence_id`.
pub open spec fn spec_sync_message(
    default_ds: InternalDefaultDS,
    port_identity: PortIdentity,
    sequence_id: u16,
) -> (Header, SyncMessage) {
    (
        Header {
            sdo_id: default_ds.sdo_id,
            domain_number: default_ds.domain_number,
            source_port_identity: port_identity,
            sequence_id,
            two_step_flag: true,
            ..Header::spec_default()
        },
        SyncMessage { origin_timestamp: WireTimestamp { seconds: 0, nanos: 0 } },
    )
}

/// The two step sync message that a port sends.
pub fn sync_message(default_ds: &InternalDefaultDS, port_identity: PortIdentity, sequence_id: u16) -> (r:
    (Header, SyncMessage))
    ensures
        r == spec_sync_message(*default_ds, port_identity, sequence_id),
{
    let header = Header { two_step_flag: true, ..base_header(default_ds, port_identity, sequence_id) };
    (header, SyncMessage { origin_timestamp: WireTimestamp { seconds: 0, nanos: 0 } })
}

/// The follow up of the sync with sequence id `sequence_id` that the port
/// sent at `send_time`: the whole nanoseconds in the body, the part of a
/// nanosecond in the correction field.
pub open spec fn spec_follow_up_message(
    default_ds: InternalDefaultDS,
    port_identity: PortIdentity,
    sequence_id: u16,
    send_time: Time,
) -> (Header, FollowUpMessage) {
    (
        Header {
            sdo_id: default_ds.sdo_id,
            domain_number: default_ds.domain_number,
            source_port_identity: port_identity,
            sequence_id,
            correction_field: subnano_of(send_time),
            ..Header::spec_default()
        },
        FollowUpMessage { precise_origin_timestamp: timestamp_of(send_time) },
    )
}

/// The follow up of a sync that the port sent at `send_time`.
pub fn follow_up_message(
    default_ds: &InternalDefaultDS,
    port_identity: PortIdentity,
    sequence_id: u16,
    send_time: Time,
) -> (r: (Header, FollowUpMessage))
    requires
        send_time.bits >= 0,
    ensures
        r == spec_follow_up_message(*default_ds, port_identity, sequence_id, send_time),
{
    let header = Header {
        correction_field: subnano(send_time),
        ..base_header(default_ds, port_identity, sequence_id)
    };
    (header, FollowUpMessage { precise_origin_timestamp: timestamp(send_time) })
}

/// The delay request that the port sends with sequence id `sequence_id`:
/// its log message interval is `0x7f`, as for messages sent at no fixed
/// interval.
pub open spec fn spec_delay_req_message(
    default_ds: InternalDefaultDS,
    port_identity: PortIdentity,
    sequence_id: u16,
) -> (Header, DelayReqMessage) {
    (
        Header {
            sdo_id: default_ds.sdo_id,
            domain_number: default_ds.domain_number,
            source_port_identity: port_identity,
            sequence_id,
            log_message_interval: 0x7f,
            ..Header::spec_default()
        },
        DelayReqMessage { origin_timestamp: WireTimestamp { seconds: 0, nanos: 0 } },
    )
}

/// The delay request that the port sends.
pub fn delay_req_message(default_ds: &InternalDefaultDS, port_identity: PortIdentity, sequence_id: u16) -> (r:
    (Header, DelayReqMessage))
    ensures
        r == spec_delay_req_message(*default_ds, port_identity, sequence_id),
{
    let header = Header {
        log_message_interval: 0x7f,
        ..base_header(default_ds, port_identity, sequence_id)
    };
    (header, DelayReqMessage { origin_timestamp: WireTimestamp { seconds: 0, nanos: 0 } })
}

/// The delay response of the port `port_identity` to the delay request with
/// header `request`, received at `receive_time`: the header of the request,
/// one step, from the port, with the part of a nanosecond of the receive
/// time added to the correction and the minimum interval between delay
/// requests as log message interval; the body holds the receive time and
/// the port that sent the request.
pub open spec fn spec_delay_resp_message(
    request: Header,
    port_identity: PortIdentity,
    min_delay_req_interval: Interval,
    receive_time: Time,
) -> (Header, DelayRespMessage) {
    (
        Header {
            two_step_flag: false,
            source_port_identity: port_identity,
            correction_field: TimeInterval(
                i48f16_of_bits((request.correction_field.bits() + subnano_of(receive_time).bits()) as i64),
            ),
            log_message_interval: min_delay_req_interval.log_2(),
            ..request
        },
        DelayRespMessage {
            receive_timestamp: timestamp_of(receive_time),
            requesting_port_identity: request.source_port_identity,
        },
    )
}

/// The delay response to a delay request. The sum of the corrections must
/// fit an interval.
pub fn delay_resp_message(
    request: &Header,
    port_identity: PortIdentity,
    min_delay_req_interval: Interval,
    receive_time: Time,
) -> (r: (Header, DelayRespMessage))
    requires
        receive_time.bits >= 0,
        request.correction_field.bits() + (receive_time.bits % 0x1_0000_0000) / 0x1_0000 <= i64::MAX,
    ensures
        r == spec_delay_resp_message(*request, port_identity, min_delay_req_interval, receive_time),
        r.1.requesting_port_identity == request.source_port_identity,
        r.0.sequence_id == request.sequence_id,
        r.0.source_port_identity == port_identity,
{
    let sub = subnano(receive_time);
    let correction = TimeInterval::from_bits(request.correction_field.to_bits() + sub.to_bits());
    let header = Header {
        two_step_flag: false,
        source_port_identity: port_identity,
        correction_field: correction,
        log_message_interval: min_delay_req_interval.as_log_2(),
        ..*request
    };
    (
        header,
        DelayRespMessage {
            receive_timestamp: timestamp(receive_time),
            requesting_port_identity: request.source_port_identity,
        },
    )
}

/// The peer delay response of the port `port_identity` to the peer delay
/// request with header `request`, received at `receive_time`: a two step
/// response with the sequence id and the correction of the request, whose
/// body holds the receive time and the port that sent the request; the send
/// time follows in a follow up.
pub open spec fn spec_pdelay_resp_message(
    default_ds: InternalDefaultDS,
    port_identity: PortIdentity,
    request: Header,
    receive_time: Time,
) -> (Header, PDelayRespMessage) {
    (
        Header {
            sdo_id: default_ds.sdo_id,
            domain_number: default_ds.domain_number,
            source_port_identity: port_identity,
            sequence_id: request.sequence_id,
            two_step_flag: true,
            correction_field: request.correction_field,
            ..Header::spec_default()
        },
        PDelayRespMessage {
            request_receive_timestamp: timestamp_of(receive_time),
            requesting_port_identity: request.source_port_identity,
        },
    )
}

/// The peer delay response to a peer delay request.
pub fn pdelay_resp_message(
    default_ds: &InternalDefaultDS,
    port_identity: PortIdentity,
    request: &Header,
    receive_time: Time,
) -> (r: (Header, PDelayRespMessage))
    requires
        receive_time.bits >= 0,
    ensures
        r == spec_pdelay_resp_message(*default_ds, port_identity, *request, receive_time),
        r.1.requesting_port_identity == request.source_port_identity,
        r.0.sequence_id == request.sequence_id,
        r.0.source_port_identity == port_identity,
{
    let header = Header {
        two_step_flag: true,
        correction_field: request.correction_field,
        ..base_header(default_ds, port_identity, request.sequence_id)
    };
    (
        header,
        PDelayRespMessage {
            request_receive_timestamp: timestamp(receive_time),
            requesting_port_identity: request.source_port_identity,
        },
    )
}

/// The follow up of the peer delay response with sequence id `sequence_id`
/// to the port `requestor`, sent at `send_time`: the whole nanoseconds in
/// the body, the part of a nanosecond in the correction field.
pub open spec fn spec_pdelay_resp_follow_up_message(
    default_ds: InternalDefaultDS,
    port_identity: PortIdentity,
    requestor: PortIdentity,
    sequence_id: u16,
    send_time: Time,
) -> PDelayRespFollowUpMessage {
    PDelayRespFollowUpMessage {
        header: Header {
            sdo_id: default_ds.sdo_id,
            domain_number: default_ds.domain_number,
            source_port_identity: port_identity,
            sequence_id,
            correction_field: subnano_of(send_time),
            ..Header::spec_default()
        },
        response_origin_timestamp: timestamp_of(send_time),
        requesting_port_identity: requestor,
    }
}

/// The follow up of a peer delay response sent at `send_time`.
pub fn pdelay_resp_follow_up_message(
    default_ds: &InternalDefaultDS,
    port_identity: PortIdentity,
    requestor: PortIdentity,
    sequence_id: u16,
    send_time: Time,
) -> (r: PDelayRespFollowUpMessage)
    requires
        send_time.bits >= 0,
    ensures
        r == spec_pdelay_resp_follow_up_message(
            *default_ds,
            port_identity,
            requestor,
            sequence_id,
            send_time,
        ),
{
    PDelayRespFollowUpMessage {
        header: Header {
            correction_field: subnano(send_time),
            ..base_header(default_ds, port_identity, sequence_id)
        },
        response_origin_timestamp: timestamp(send_time),
        requesting_port_identity: requestor,
    }
}

} // verus!
