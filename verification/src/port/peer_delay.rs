//! The peer delay measurement of a port (IEEE1588-2019 section 11.4), and
//! the extraction of a measurement once one is complete.

use vstd::prelude::*;

use crate::datastructures::common::{PortIdentity, WireTimestamp};
use crate::datastructures::messages::Header;
use crate::port::measurement::{Measurement, PeerDelayState};
use crate::port::slave::{correction_bits, time_of};
use crate::port::state::{DelayState, PortState, SlaveState, SyncState};
use crate::time::{half_toward_zero, Duration, Time};

verus! {

/// What a peer delay message did to a port.
#[derive(Debug, Clone, Copy, PartialEq, Eq)]
pub enum PeerDelayEvent {
    /// The message was not for the measurement in progress, or repeated a
    /// part of it.
    Ignored,
    /// A second device answered the same request: the port is forced into
    /// the faulty state, and its filter has to be replaced.
    PortFaulty,
    /// The message gave a part of the measurement: the port then extracts a
    /// measurement.
    Measure,
}

/// Whether a device other than `responder` answers the request `id`: then
/// more than one device is on the link.
pub open spec fn other_responder(pd: PeerDelayState, h: Header) -> bool {
    match pd {
        PeerDelayState::PostMeasurement { id, responder_identity } => id == h.sequence_id
            && responder_identity != h.source_port_identity,
        PeerDelayState::Measuring { id, responder_identity, .. } => id == h.sequence_id && (
        responder_identity matches Some(r) && r != h.source_port_identity),
        PeerDelayState::Empty => false,
    }
}

/// The state after a peer delay response with header `h`, request receive
/// timestamp `request_receive` and requesting port `requesting`, received
/// at `recv` by the port `own`.
pub open spec fn spec_handle_peer_delay_response(
    pd: PeerDelayState,
    ps: PortState,
    own: PortIdentity,
    h: Header,
    request_receive: WireTimestamp,
    requesting: PortIdentity,
    recv: Time,
) -> (PeerDelayState, PortState, PeerDelayEvent) {
    if own != requesting {
        (pd, ps, PeerDelayEvent::Ignored)
    } else if other_responder(pd, h) {
        (pd, PortState::Faulty, PeerDelayEvent::PortFaulty)
    } else {
        match pd {
            PeerDelayState::Measuring {
                id,
                responder_identity,
                request_send_time,
                request_recv_time,
                response_send_time,
                response_recv_time,
            } => if id != h.sequence_id || response_recv_time is Some {
                (pd, ps, PeerDelayEvent::Ignored)
            } else {
                (
                    PeerDelayState::Measuring {
                        id,
                        responder_identity: Some(h.source_port_identity),
                        request_send_time,
                        request_recv_time: Some(time_of(request_receive)),
                        response_send_time: if h.two_step_flag {
                            response_send_time
                        } else {
                            Some(time_of(request_receive))
                        },
                        response_recv_time: Some(
                            Time { bits: recv.bits.wrapping_sub(correction_bits(h)) },
                        ),
                    },
                    ps,
                    PeerDelayEvent::Measure,
                )
            },
            _ => (pd, ps, PeerDelayEvent::Ignored),
        }
    }
}

/// The state after a peer delay response follow up with header `h`,
/// response origin timestamp `origin` and requesting port `requesting`,
/// received by the port `own`.
pub open spec fn spec_handle_peer_delay_response_follow_up(
    pd: PeerDelayState,
    ps: PortState,
    own: PortIdentity,
    h: Header,
    origin: WireTimestamp,
    requesting: PortIdentity,
) -> (PeerDelayState, PortState, PeerDelayEvent) {
    if own != requesting {
        (pd, ps, PeerDelayEvent::Ignored)
    } else if other_responder(pd, h) {
        (pd, PortState::Faulty, PeerDelayEvent::PortFaulty)
    } else {
        match pd {
            PeerDelayState::Measuring {
                id,
                responder_identity,
                request_send_time,
                request_recv_time,
                response_send_time,
                response_recv_time,
            } => if id != h.sequence_id || response_send_time is Some {
                (pd, ps, PeerDelayEvent::Ignored)
            } else {
                (
                    PeerDelayState::Measuring {
                        id,
                        responder_identity: Some(h.source_port_identity),
                        request_send_time,
                        request_recv_time,
                        response_send_time: Some(
                            Time { bits: time_of(origin).bits.wrapping_add(correction_bits(h)) },
                        ),
                        response_recv_time,
                    },
                    ps,
                    PeerDelayEvent::Measure,
                )
            },
            _ => (pd, ps, PeerDelayEvent::Ignored),
        }
    }
}

/// The state after the send timestamp `timestamp` of the peer delay request
/// `timestamp_id` is known, and whether a measurement follows.
pub open spec fn spec_handle_pdelay_timestamp(pd: PeerDelayState, timestamp_id: u16, timestamp: Time) -> (
    PeerDelayState,
    bool,
) {
    match pd {
        PeerDelayState::Measuring {
            id,
            responder_identity,
            request_send_time,
            request_recv_time,
            response_send_time,
            response_recv_time,
        } => if id != timestamp_id || request_send_time is Some {
            (pd, false)
        } else {
            (
                PeerDelayState::Measuring {
                    id,
                    responder_identity,
                    request_send_time: Some(timestamp),
                    request_recv_time,
                    response_send_time,
                    response_recv_time,
                },
                true,
            )
        },
        _ => (pd, false),
    }
}

/// The wrapping difference `a - b` of two durations.
pub open spec fn sub_bits(a: i128, b: i128) -> i128 {
    a.wrapping_sub(b)
}

/// A measurement with only its event time.
pub open spec fn measurement_at(event_time: Time) -> Measurement {
    Measurement {
        event_time,
        offset: None,
        delay: None,
        peer_delay: None,
        raw_sync_offset: None,
        raw_delay_offset: None,
    }
}

/// The measurement that the state of a port holds, and the state after it
/// is taken out.
///
/// A complete peer delay measurement comes first: its peer delay is half
/// the round trip time without the time the peer took to answer, and it
/// brings a faulty port back to listening. Otherwise a slave takes a
/// complete sync measurement (the offset from its master, without the
/// link's `asymmetry`, and without `mean_delay` when it is known), else a
/// complete delay measurement (the delay, when a sync offset is known).
pub open spec fn spec_extract_measurement(
    pd: PeerDelayState,
    ps: PortState,
    asymmetry: Duration,
    mean_delay: Option<Duration>,
) -> (PeerDelayState, PortState, Option<Measurement>) {
    match pd {
        PeerDelayState::Measuring {
            id,
            responder_identity: Some(responder),
            request_send_time: Some(t1),
            request_recv_time: Some(t2),
            response_send_time: Some(t3),
            response_recv_time: Some(t4),
        } => {
            let round_trip = sub_bits(t4.bits, t1.bits);
            let turnaround = sub_bits(t3.bits, t2.bits);
            let peer_delay = Duration { bits: half_toward_zero(sub_bits(round_trip, turnaround)) };
            (
                PeerDelayState::PostMeasurement { id, responder_identity: responder },
                if ps is Faulty {
                    PortState::Listening
                } else {
                    ps
                },
                Some(Measurement { peer_delay: Some(peer_delay), ..measurement_at(t4) }),
            )
        },
        _ => match ps {
            PortState::Slave(s) => match s.sync_state {
                SyncState::Measuring { send_time: Some(st), recv_time: Some(rt), .. } => {
                    let raw = Duration { bits: sub_bits(sub_bits(rt.bits, st.bits), asymmetry.bits) };
                    (
                        pd,
                        PortState::Slave(
                            SlaveState {
                                last_raw_sync_offset: Some(raw),
                                sync_state: SyncState::Empty,
                                ..s
                            },
                        ),
                        Some(
                            Measurement {
                                raw_sync_offset: Some(raw),
                                offset: match mean_delay {
                                    Some(md) => Some(Duration { bits: sub_bits(raw.bits, md.bits) }),
                                    None => None,
                                },
                                ..measurement_at(rt)
                            },
                        ),
                    )
                },
                _ => match s.delay_state {
                    DelayState::Measuring { send_time: Some(st), recv_time: Some(rt), .. } => {
                        let raw = Duration {
                            bits: sub_bits(sub_bits(st.bits, rt.bits), asymmetry.bits),
                        };
                        (
                            pd,
                            PortState::Slave(SlaveState { delay_state: DelayState::Empty, ..s }),
                            Some(
                                Measurement {
                                    raw_delay_offset: Some(raw),
                                    delay: match s.last_raw_sync_offset {
                                        Some(sync) => Some(
                                            Duration {
                                                bits: half_toward_zero(sub_bits(sync.bits, raw.bits)),
                                            },
                                        ),
                                        None => None,
                                    },
                                    ..measurement_at(st)
                                },
                            ),
                        )
                    },
                    _ => (pd, ps, None),
                },
            },
            _ => (pd, ps, None),
        },
    }
}

/// A completed sync measurement: its event is the (corrected) receipt of
/// the sync; its raw offset is the receive time less the send time, less
/// the link's asymmetry; its offset is the raw offset less the mean delay,
/// when that is known. The slave keeps the raw offset for its next delay
/// measurement and waits for the next sync. (Times far from the bounds of
/// their bits, so that nothing wraps.)
pub proof fn lemma_sync_measurement(
    pd: PeerDelayState,
    s: SlaveState,
    id: u16,
    st: Time,
    rt: Time,
    asymmetry: Duration,
    mean_delay: Option<Duration>,
)
    requires
        !(pd is Measuring),
        s.sync_state == (SyncState::Measuring { id, send_time: Some(st), recv_time: Some(rt) }),
        -0x1_0000_0000_0000_0000_0000_0000_0000 < st.bits < 0x1_0000_0000_0000_0000_0000_0000_0000,
        -0x1_0000_0000_0000_0000_0000_0000_0000 < rt.bits < 0x1_0000_0000_0000_0000_0000_0000_0000,
        -0x1_0000_0000_0000_0000_0000_0000_0000 < asymmetry.bits < 0x1_0000_0000_0000_0000_0000_0000_0000,
        mean_delay matches Some(md) ==> -0x1_0000_0000_0000_0000_0000_0000_0000 < md.bits
            < 0x1_0000_0000_0000_0000_0000_0000_0000,
    ensures
        ({
            let (pd2, ps2, m) = spec_extract_measurement(pd, PortState::Slave(s), asymmetry, mean_delay);
            let raw = rt.bits - st.bits - asymmetry.bits;
            &&& pd2 == pd
            &&& m matches Some(x) && x.event_time == rt && x.raw_sync_offset == Some(
                Duration { bits: raw as i128 },
            ) && x.delay is None && x.peer_delay is None && x.raw_delay_offset is None
                && match mean_delay {
                Some(md) => x.offset == Some(Duration { bits: (raw - md.bits) as i128 }),
                None => x.offset is None,
            }
            &&& ps2 matches PortState::Slave(s2) && s2.remote_master == s.remote_master
                && s2.sync_state == SyncState::Empty && s2.last_raw_sync_offset == Some(
                Duration { bits: raw as i128 },
            )
        }),
{
}

/// A completed delay measurement: its event is the sending of the delay
/// request; its raw offset is the send time less the (corrected) time the
/// master received it, less the asymmetry; and the delay is half the
/// difference of the last raw sync offset and this raw offset, rounded
/// toward zero (within half a unit). (Times far from the bounds of their
/// bits.)
pub proof fn lemma_delay_measurement(
    pd: PeerDelayState,
    s: SlaveState,
    id: u16,
    st: Time,
    rt: Time,
    asymmetry: Duration,
    mean_delay: Option<Duration>,
)
    requires
        !(pd is Measuring),
        !(s.sync_state matches SyncState::Measuring { send_time: Some(_), recv_time: Some(_), .. }),
        s.delay_state == (DelayState::Measuring { id, send_time: Some(st), recv_time: Some(rt) }),
        -0x1_0000_0000_0000_0000_0000_0000_0000 < st.bits < 0x1_0000_0000_0000_0000_0000_0000_0000,
        -0x1_0000_0000_0000_0000_0000_0000_0000 < rt.bits < 0x1_0000_0000_0000_0000_0000_0000_0000,
        -0x1_0000_0000_0000_0000_0000_0000_0000 < asymmetry.bits < 0x1_0000_0000_0000_0000_0000_0000_0000,
        s.last_raw_sync_offset matches Some(o) ==> -0x1_0000_0000_0000_0000_0000_0000_0000 < o.bits
            < 0x1_0000_0000_0000_0000_0000_0000_0000,
    ensures
        ({
            let (pd2, ps2, m) = spec_extract_measurement(pd, PortState::Slave(s), asymmetry, mean_delay);
            let raw = st.bits - rt.bits - asymmetry.bits;
            &&& pd2 == pd
            &&& m matches Some(x) && x.event_time == st && x.raw_delay_offset == Some(
                Duration { bits: raw as i128 },
            ) && x.offset is None && x.peer_delay is None && x.raw_sync_offset is None
                && match s.last_raw_sync_offset {
                Some(o) => x.delay matches Some(d) && -1 <= (o.bits - raw) - 2 * d.bits <= 1
                    && (o.bits - raw >= 0 ==> d.bits >= 0) && (o.bits - raw <= 0 ==> d.bits <= 0),
                None => x.delay is None,
            }
            &&& ps2 matches PortState::Slave(s2) && s2.remote_master == s.remote_master
                && s2.delay_state == DelayState::Empty
        }),
{
}

/// A completed peer delay measurement: its event is the (corrected)
/// receipt of the response, and the peer delay is half the round trip time
/// (response receipt less request sending) less the time the peer took to
/// answer (response sending less request receipt), rounded toward zero.
/// (Times far from the bounds of their bits.)
pub proof fn lemma_peer_delay_measurement(
    ps: PortState,
    id: u16,
    responder: PortIdentity,
    t1: Time,
    t2: Time,
    t3: Time,
    t4: Time,
    asymmetry: Duration,
    mean_delay: Option<Duration>,
)
    requires
        -0x1_0000_0000_0000_0000_0000_0000_0000 < t1.bits < 0x1_0000_0000_0000_0000_0000_0000_0000,
        -0x1_0000_0000_0000_0000_0000_0000_0000 < t2.bits < 0x1_0000_0000_0000_0000_0000_0000_0000,
        -0x1_0000_0000_0000_0000_0000_0000_0000 < t3.bits < 0x1_0000_0000_0000_0000_0000_0000_0000,
        -0x1_0000_0000_0000_0000_0000_0000_0000 < t4.bits < 0x1_0000_0000_0000_0000_0000_0000_0000,
    ensures
        ({
            let pd = PeerDelayState::Measuring {
                id,
                responder_identity: Some(responder),
                request_send_time: Some(t1),
                request_recv_time: Some(t2),
                response_send_time: Some(t3),
                response_recv_time: Some(t4),
            };
            let (pd2, ps2, m) = spec_extract_measurement(pd, ps, asymmetry, mean_delay);
            let twice = (t4.bits - t1.bits) - (t3.bits - t2.bits);
            &&& pd2 == (PeerDelayState::PostMeasurement { id, responder_identity: responder })
            &&& m matches Some(x) && x.event_time == t4 && x.offset is None && x.delay is None
                && x.raw_sync_offset is None && x.raw_delay_offset is None && (x.peer_delay matches Some(
                d,
            ) && -1 <= twice - 2 * d.bits <= 1 && (twice >= 0 ==> d.bits >= 0) && (twice <= 0
                ==> d.bits <= 0))
            &&& ps2 == if ps is Faulty {
                PortState::Listening
            } else {
                ps
            }
        }),
{
}

/// The time a timestamp stands for.
fn time_from(ts: WireTimestamp) -> (r: Time)
    ensures
        r == time_of(ts),
{
    Time::from_timestamp(ts)
}

/// The duration of the correction field of a header.
fn correction(h: &Header) -> (r: Duration)
    ensures
        r.bits == correction_bits(*h),
{
    Duration::from_time_interval(&h.correction_field)
}

/// Whether a device other than the one that answered the request before
/// answers it now.
fn is_other_responder(pd: &PeerDelayState, h: &Header) -> (r: bool)
    ensures
        r == other_responder(*pd, *h),
{
    match pd {
        PeerDelayState::PostMeasurement { id, responder_identity } => *id == h.sequence_id
            && !responder_identity.same_as(&h.source_port_identity),
        PeerDelayState::Measuring { id, responder_identity, .. } => *id == h.sequence_id && match responder_identity {
            Some(r) => !r.same_as(&h.source_port_identity),
            None => false,
        },
        PeerDelayState::Empty => false,
    }
}

/// Handles a peer delay response with header `header`, request receive
/// timestamp `request_receive_timestamp` and requesting port
/// `requesting_port_identity`, received at `recv_time` by the port
/// `port_identity`.
pub(crate) fn track_peer_delay_response(
    peer_delay_state: &mut PeerDelayState,
    port_state: &mut PortState,
    port_identity: PortIdentity,
    header: &Header,
    request_receive_timestamp: WireTimestamp,
    requesting_port_identity: PortIdentity,
    recv_time: Time,
) -> (r: PeerDelayEvent)
    ensures
        (*final(peer_delay_state), *final(port_state), r) == spec_handle_peer_delay_response(
            *old(peer_delay_state),
            *old(port_state),
            port_identity,
            *header,
            request_receive_timestamp,
            requesting_port_identity,
            recv_time,
        ),
{
    let pd = *peer_delay_state;
    let ps = *port_state;
    let (new_pd, new_ps, event) = if !port_identity.same_as(&requesting_port_identity) {
        (pd, ps, PeerDelayEvent::Ignored)
    } else if is_other_responder(&pd, header) {
        (pd, PortState::Faulty, PeerDelayEvent::PortFaulty)
    } else {
        match pd {
            PeerDelayState::Measuring {
                id,
                responder_identity,
                request_send_time,
                request_recv_time,
                response_send_time,
                response_recv_time,
            } => if id != header.sequence_id || response_recv_time.is_some() {
                (pd, ps, PeerDelayEvent::Ignored)
            } else {
                let request_time = time_from(request_receive_timestamp);
                (
                    PeerDelayState::Measuring {
                        id,
                        responder_identity: Some(header.source_port_identity),
                        request_send_time,
                        request_recv_time: Some(request_time),
                        response_send_time: if header.two_step_flag {
                            response_send_time
                        } else {
                            Some(request_time)
                        },
                        response_recv_time: Some(recv_time.minus(correction(header))),
                    },
                    ps,
                    PeerDelayEvent::Measure,
                )
            },
            _ => (pd, ps, PeerDelayEvent::Ignored),
        }
    };
    *peer_delay_state = new_pd;
    *port_state = new_ps;
    event
}

/// Handles a peer delay response follow up with header `header`, response
/// origin timestamp `response_origin_timestamp` and requesting port
/// `requesting_port_identity`, received by the port `port_identity`.
pub(crate) fn track_peer_delay_response_follow_up(
    peer_delay_state: &mut PeerDelayState,
    port_state: &mut PortState,
    port_identity: PortIdentity,
    header: &Header,
    response_origin_timestamp: WireTimestamp,
    requesting_port_identity: PortIdentity,
) -> (r: PeerDelayEvent)
    ensures
        (*final(peer_delay_state), *final(port_state), r)
            == spec_handle_peer_delay_response_follow_up(
            *old(peer_delay_state),
            *old(port_state),
            port_identity,
            *header,
            response_origin_timestamp,
            requesting_port_identity,
        ),
{
    let pd = *peer_delay_state;
    let ps = *port_state;
    let (new_pd, new_ps, event) = if !port_identity.same_as(&requesting_port_identity) {
        (pd, ps, PeerDelayEvent::Ignored)
    } else if is_other_responder(&pd, header) {
        (pd, PortState::Faulty, PeerDelayEvent::PortFaulty)
    } else {
        match pd {
            PeerDelayState::Measuring {
                id,
                responder_identity,
                request_send_time,
                request_recv_time,
                response_send_time,
                response_recv_time,
            } => if id != header.sequence_id || response_send_time.is_some() {
                (pd, ps, PeerDelayEvent::Ignored)
            } else {
                (
                    PeerDelayState::Measuring {
                        id,
                        responder_identity: Some(header.source_port_identity),
                        request_send_time,
                        request_recv_time,
                        response_send_time: Some(
                            time_from(response_origin_timestamp).plus(correction(header)),
                        ),
                        response_recv_time,
                    },
                    ps,
                    PeerDelayEvent::Measure,
                )
            },
            _ => (pd, ps, PeerDelayEvent::Ignored),
        }
    };
    *peer_delay_state = new_pd;
    *port_state = new_ps;
    event
}

/// Handles the send timestamp `timestamp` of the peer delay request with
/// sequence id `timestamp_id`.
pub(crate) fn track_pdelay_timestamp(
    peer_delay_state: &mut PeerDelayState,
    timestamp_id: u16,
    timestamp: Time,
) -> (measure: bool)
    ensures
        (*final(peer_delay_state), measure) == spec_handle_pdelay_timestamp(
            *old(peer_delay_state),
            timestamp_id,
            timestamp,
        ),
{
    let pd = *peer_delay_state;
    let (new_pd, measure) = match pd {
        PeerDelayState::Measuring {
            id,
            responder_identity,
            request_send_time,
            request_recv_time,
            response_send_time,
            response_recv_time,
        } => if id != timestamp_id || request_send_time.is_some() {
            (pd, false)
        } else {
            (
                PeerDelayState::Measuring {
                    id,
                    responder_identity,
                    request_send_time: Some(timestamp),
                    request_recv_time,
                    response_send_time,
                    response_recv_time,
                },
                true,
            )
        },
        _ => (pd, false),
    };
    *peer_delay_state = new_pd;
    measure
}

/// Takes the measurement out of the state of a port, if one is complete
/// (see [`spec_extract_measurement`]). When the port comes back from the
/// faulty state to listening, its filter has to be replaced.
pub fn extract_measurement(
    peer_delay_state: &mut PeerDelayState,
    port_state: &mut PortState,
    delay_asymmetry: Duration,
    mean_delay: Option<Duration>,
) -> (r: Option<Measurement>)
    ensures
        (*final(peer_delay_state), *final(port_state), r) == spec_extract_measurement(
            *old(peer_delay_state),
            *old(port_state),
            delay_asymmetry,
            mean_delay,
        ),
{
    let pd = *peer_delay_state;
    let ps = *port_state;
    let (new_pd, new_ps, m) = match pd {
        PeerDelayState::Measuring {
            id,
            responder_identity: Some(responder),
            request_send_time: Some(t1),
            request_recv_time: Some(t2),
            response_send_time: Some(t3),
            response_recv_time: Some(t4),
        } => {
            let peer_delay = t4.since(t1).minus(t3.since(t2)).half();
            let new_ps = match ps {
                PortState::Faulty => PortState::Listening,
                _ => ps,
            };
            (
                PeerDelayState::PostMeasurement { id, responder_identity: responder },
                new_ps,
                Some(Measurement {
                    event_time: t4,
                    offset: None,
                    delay: None,
                    peer_delay: Some(peer_delay),
                    raw_sync_offset: None,
                    raw_delay_offset: None,
                }),
            )
        },
        _ => match ps {
            PortState::Slave(s) => match s.sync_state {
                SyncState::Measuring { send_time: Some(st), recv_time: Some(rt), .. } => {
                    let raw = rt.since(st).minus(delay_asymmetry);
                    let offset = match mean_delay {
                        Some(md) => Some(raw.minus(md)),
                        None => None,
                    };
                    (
                        pd,
                        PortState::Slave(SlaveState {
                            last_raw_sync_offset: Some(raw),
                            sync_state: SyncState::Empty,
                            ..s
                        }),
                        Some(Measurement {
                            event_time: rt,
                            offset,
                            delay: None,
                            peer_delay: None,
                            raw_sync_offset: Some(raw),
                            raw_delay_offset: None,
                        }),
                    )
                },
                _ => match s.delay_state {
                    DelayState::Measuring { send_time: Some(st), recv_time: Some(rt), .. } => {
                        let raw = st.since(rt).minus(delay_asymmetry);
                        let delay = match s.last_raw_sync_offset {
                            Some(sync) => Some(sync.minus(raw).half()),
                            None => None,
                        };
                        (
                            pd,
                            PortState::Slave(SlaveState { delay_state: DelayState::Empty, ..s }),
                            Some(Measurement {
                                event_time: st,
                                offset: None,
                                delay,
                                peer_delay: None,
                                raw_sync_offset: None,
                                raw_delay_offset: Some(raw),
                            }),
                        )
                    },
                    _ => (pd, ps, None),
                },
            },
            _ => (pd, ps, None),
        },
    };
    *peer_delay_state = new_pd;
    *port_state = new_ps;
    m
}

/// Starts a peer delay measurement for the peer delay request with sequence
/// id `pdelay_id`, which the port then sends.
pub fn start_peer_delay_request(peer_delay_state: &mut PeerDelayState, pdelay_id: u16)
    ensures
        *final(peer_delay_state) == (PeerDelayState::Measuring {
            id: pdelay_id,
            responder_identity: None,
            request_send_time: None,
            request_recv_time: None,
            response_send_time: None,
            response_recv_time: None,
        }),
{
    *peer_delay_state = PeerDelayState::Measuring {
        id: pdelay_id,
        responder_identity: None,
        request_send_time: None,
        request_recv_time: None,
        response_send_time: None,
        response_recv_time: None,
    };
}

} // verus!
