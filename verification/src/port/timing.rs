//! The timing of a port: what it does with the timing messages of its
//! master and its peer, and with the send timestamps of its own requests.
//! Each handler records the timestamps (see [`crate::port::slave`] and
//! [`crate::port::peer_delay`]) and, when that completes a measurement,
//! extracts it for the filter.

use vstd::prelude::*;

use crate::datastructures::{common::{PortIdentity, WireTimestamp}, messages::Header};
use crate::filters::FilterUpdate;
use crate::port::{
    actions::{filter_update_action, PortAction},
    measurement::{Measurement, PeerDelayState},
    peer_delay::{
        extract_measurement, other_responder, spec_extract_measurement, spec_handle_pdelay_timestamp,
        spec_handle_peer_delay_response, spec_handle_peer_delay_response_follow_up,
        track_pdelay_timestamp, track_peer_delay_response, track_peer_delay_response_follow_up,
        PeerDelayEvent,
    },
    slave::{
        spec_handle_delay_resp, spec_handle_delay_timestamp, spec_handle_follow_up,
        correction_bits, spec_handle_sync, time_of, track_delay_resp, track_delay_timestamp,
        track_follow_up, track_sync,
    },
    state::{PortState, SlaveState, SyncState},
};
use crate::time::{Duration, Time};

verus! {

/// What a port keeps for its measurements: its state, its peer delay
/// measurement, the asymmetry of its link and the mean delay that its filter
/// last reported.
#[derive(Debug, Clone, Copy)]
pub struct PortTiming {
    /// The state of the port.
    pub port_state: PortState,
    /// The peer delay measurement in progress.
    pub peer_delay_state: PeerDelayState,
    /// The asymmetry of the delay of the link.
    pub delay_asymmetry: Duration,
    /// The mean delay to the master, as the filter last reported it.
    pub mean_delay: Option<Duration>,
}

/// The timing after recording timestamps that left the port in state `ps`
/// and the peer delay measurement in state `pd`: when they complete a
/// measurement (`complete`), the measurement is extracted from them (see
/// [`spec_extract_measurement`]).
pub open spec fn then_measure(t: PortTiming, ps: PortState, pd: PeerDelayState, complete: bool) -> (
    PortTiming,
    Option<Measurement>,
) {
    if complete {
        let (pd2, ps2, m) = spec_extract_measurement(pd, ps, t.delay_asymmetry, t.mean_delay);
        (PortTiming { port_state: ps2, peer_delay_state: pd2, ..t }, m)
    } else {
        (PortTiming { port_state: ps, peer_delay_state: pd, ..t }, None)
    }
}

/// Extracts the measurement that the recorded timestamps completed.
pub fn measure(timing: &mut PortTiming) -> (r: Option<Measurement>)
    ensures
        (*final(timing), r) == then_measure(
            *old(timing),
            old(timing).port_state,
            old(timing).peer_delay_state,
            true,
        ),
{
    let asymmetry = timing.delay_asymmetry;
    let mean_delay = timing.mean_delay;
    extract_measurement(&mut timing.peer_delay_state, &mut timing.port_state, asymmetry, mean_delay)
}

/// Handles a sync message with header `header` and origin timestamp
/// `origin_timestamp`, received at `recv_time`, and gives the measurement
/// that it completes.
pub fn handle_sync(
    timing: &mut PortTiming,
    header: &Header,
    origin_timestamp: WireTimestamp,
    recv_time: Time,
) -> (r: Option<Measurement>)
    ensures
        ({
            let (ps, complete) = spec_handle_sync(
                old(timing).port_state,
                *header,
                origin_timestamp,
                recv_time,
            );
            (*final(timing), r) == then_measure(*old(timing), ps, old(timing).peer_delay_state, complete)
        }),
{
    let complete = track_sync(&mut timing.port_state, header, origin_timestamp, recv_time);
    if complete {
        measure(timing)
    } else {
        None
    }
}

/// Handles a follow up message with header `header` and precise origin
/// timestamp `precise_origin_timestamp`, and gives the measurement that it
/// completes.
pub fn handle_follow_up(
    timing: &mut PortTiming,
    header: &Header,
    precise_origin_timestamp: WireTimestamp,
) -> (r: Option<Measurement>)
    ensures
        ({
            let (ps, complete) = spec_handle_follow_up(
                old(timing).port_state,
                *header,
                precise_origin_timestamp,
            );
            (*final(timing), r) == then_measure(*old(timing), ps, old(timing).peer_delay_state, complete)
        }),
{
    let complete = track_follow_up(&mut timing.port_state, header, precise_origin_timestamp);
    if complete {
        measure(timing)
    } else {
        None
    }
}

/// Handles a delay response with header `header`, receive timestamp
/// `receive_timestamp` and requesting port `requesting_port_identity`, that
/// the port `port_identity` received, and gives the measurement that it
/// completes.
pub fn handle_delay_resp(
    timing: &mut PortTiming,
    port_identity: PortIdentity,
    header: &Header,
    receive_timestamp: WireTimestamp,
    requesting_port_identity: PortIdentity,
) -> (r: Option<Measurement>)
    ensures
        ({
            let (ps, complete) = spec_handle_delay_resp(
                old(timing).port_state,
                port_identity,
                *header,
                receive_timestamp,
                requesting_port_identity,
            );
            (*final(timing), r) == then_measure(*old(timing), ps, old(timing).peer_delay_state, complete)
        }),
{
    let complete = track_delay_resp(
        &mut timing.port_state,
        port_identity,
        header,
        receive_timestamp,
        requesting_port_identity,
    );
    if complete {
        measure(timing)
    } else {
        None
    }
}

/// Handles the send timestamp `timestamp` of the delay request with sequence
/// id `timestamp_id`, and gives the measurement that it completes.
pub fn handle_delay_timestamp(timing: &mut PortTiming, timestamp_id: u16, timestamp: Time) -> (r:
    Option<Measurement>)
    ensures
        ({
            let (ps, complete) = spec_handle_delay_timestamp(
                old(timing).port_state,
                timestamp_id,
                timestamp,
            );
            (*final(timing), r) == then_measure(*old(timing), ps, old(timing).peer_delay_state, complete)
        }),
{
    let complete = track_delay_timestamp(&mut timing.port_state, timestamp_id, timestamp);
    if complete {
        measure(timing)
    } else {
        None
    }
}

/// Handles a peer delay response with header `header`, request receive
/// timestamp `request_receive_timestamp` and requesting port
/// `requesting_port_identity`, received at `recv_time` by the port
/// `port_identity`, and gives the measurement that it completes. A response
/// from a second device to the same request makes the port faulty.
pub fn handle_peer_delay_response(
    timing: &mut PortTiming,
    port_identity: PortIdentity,
    header: &Header,
    request_receive_timestamp: WireTimestamp,
    requesting_port_identity: PortIdentity,
    recv_time: Time,
) -> (r: Option<Measurement>)
    ensures
        ({
            let (pd, ps, event) = spec_handle_peer_delay_response(
                old(timing).peer_delay_state,
                old(timing).port_state,
                port_identity,
                *header,
                request_receive_timestamp,
                requesting_port_identity,
                recv_time,
            );
            (*final(timing), r) == then_measure(*old(timing), ps, pd, event is Measure)
        }),
{
    let event = track_peer_delay_response(
        &mut timing.peer_delay_state,
        &mut timing.port_state,
        port_identity,
        header,
        request_receive_timestamp,
        requesting_port_identity,
        recv_time,
    );
    match event {
        PeerDelayEvent::Measure => measure(timing),
        _ => None,
    }
}

/// Handles a peer delay response follow up with header `header`, response
/// origin timestamp `response_origin_timestamp` and requesting port
/// `requesting_port_identity`, received by the port `port_identity`, and
/// gives the measurement that it completes. A follow up from a second
/// device to the same request makes the port faulty.
pub fn handle_peer_delay_response_follow_up(
    timing: &mut PortTiming,
    port_identity: PortIdentity,
    header: &Header,
    response_origin_timestamp: WireTimestamp,
    requesting_port_identity: PortIdentity,
) -> (r: Option<Measurement>)
    ensures
        ({
            let (pd, ps, event) = spec_handle_peer_delay_response_follow_up(
                old(timing).peer_delay_state,
                old(timing).port_state,
                port_identity,
                *header,
                response_origin_timestamp,
                requesting_port_identity,
            );
            (*final(timing), r) == then_measure(*old(timing), ps, pd, event is Measure)
        }),
{
    let event = track_peer_delay_response_follow_up(
        &mut timing.peer_delay_state,
        &mut timing.port_state,
        port_identity,
        header,
        response_origin_timestamp,
        requesting_port_identity,
    );
    match event {
        PeerDelayEvent::Measure => measure(timing),
        _ => None,
    }
}

/// Handles the send timestamp `timestamp` of the peer delay request with
/// sequence id `timestamp_id`, and gives the measurement that it completes.
pub fn handle_pdelay_timestamp(timing: &mut PortTiming, timestamp_id: u16, timestamp: Time) -> (r:
    Option<Measurement>)
    ensures
        ({
            let (pd, complete) = spec_handle_pdelay_timestamp(
                old(timing).peer_delay_state,
                timestamp_id,
                timestamp,
            );
            (*final(timing), r) == then_measure(*old(timing), old(timing).port_state, pd, complete)
        }),
{
    let complete = track_pdelay_timestamp(&mut timing.peer_delay_state, timestamp_id, timestamp);
    if complete {
        measure(timing)
    } else {
        None
    }
}

/// Timing messages of a master other than the slave's own change nothing
/// and give no measurement: the handlers leave the timing as it was.
pub proof fn lemma_other_master_gives_no_measurement(
    t: PortTiming,
    h: Header,
    ts: WireTimestamp,
    recv: Time,
    own: PortIdentity,
    requesting: PortIdentity,
)
    requires
        t.port_state matches PortState::Slave(s) && s.remote_master != h.source_port_identity,
    ensures
        ({
            let (ps, c) = spec_handle_sync(t.port_state, h, ts, recv);
            then_measure(t, ps, t.peer_delay_state, c) == (t, None::<Measurement>)
        }),
        ({
            let (ps, c) = spec_handle_follow_up(t.port_state, h, ts);
            then_measure(t, ps, t.peer_delay_state, c) == (t, None::<Measurement>)
        }),
        ({
            let (ps, c) = spec_handle_delay_resp(t.port_state, own, h, ts, requesting);
            then_measure(t, ps, t.peer_delay_state, c) == (t, None::<Measurement>)
        }),
{
}

/// A two step sync and its follow up give the same measurement in either
/// order: the send time is the follow up's precise origin plus its
/// correction, the receive time the sync's receipt less its correction. The
/// sync that arrives first waits for its follow up; the follow up that
/// arrives first waits for its sync.
pub proof fn lemma_sync_follow_up_in_either_order(
    s: SlaveState,
    hs: Header,
    hf: Header,
    origin: WireTimestamp,
    precise_origin: WireTimestamp,
    recv: Time,
)
    requires
        s.sync_state == SyncState::Empty,
        hs.source_port_identity == s.remote_master,
        hf.source_port_identity == s.remote_master,
        hs.two_step_flag,
        hs.sequence_id == hf.sequence_id,
    ensures
        ({
            let ps = PortState::Slave(s);
            let send = Time { bits: time_of(precise_origin).bits.wrapping_add(correction_bits(hf)) };
            let received = Time { bits: recv.bits.wrapping_sub(correction_bits(hs)) };
            let done = PortState::Slave(
                SlaveState {
                    sync_state: SyncState::Measuring {
                        id: hs.sequence_id,
                        send_time: Some(send),
                        recv_time: Some(received),
                    },
                    ..s
                },
            );
            let (a1, c1) = spec_handle_sync(ps, hs, origin, recv);
            let (a2, c2) = spec_handle_follow_up(a1, hf, precise_origin);
            let (b1, d1) = spec_handle_follow_up(ps, hf, precise_origin);
            let (b2, d2) = spec_handle_sync(b1, hs, origin, recv);
            &&& !c1 && c2 && a2 == done
            &&& d1 && d2 && b2 == done
        }),
{
}

/// A one step sync of the slave's master, not seen before, completes the
/// sync measurement at once: its origin timestamp is the send time.
pub proof fn lemma_one_step_sync(s: SlaveState, h: Header, origin: WireTimestamp, recv: Time)
    requires
        h.source_port_identity == s.remote_master,
        !h.two_step_flag,
        !(s.sync_state matches SyncState::Measuring { id, .. } && id == h.sequence_id),
    ensures
        spec_handle_sync(PortState::Slave(s), h, origin, recv) == (
            PortState::Slave(
                SlaveState {
                    sync_state: SyncState::Measuring {
                        id: h.sequence_id,
                        send_time: Some(time_of(origin)),
                        recv_time: Some(Time { bits: recv.bits.wrapping_sub(correction_bits(h)) }),
                    },
                    ..s
                },
            ),
            true,
        ),
{
}

/// A two step peer delay response and its follow up give the same state in
/// either order: the requester holds the four times of the exchange and the
/// responder, and measures after each of them.
pub proof fn lemma_peer_delay_in_either_order(
    own: PortIdentity,
    ps: PortState,
    id: u16,
    t1: Time,
    hr: Header,
    hf: Header,
    request_receive: WireTimestamp,
    response_origin: WireTimestamp,
    recv: Time,
)
    requires
        hr.sequence_id == id,
        hf.sequence_id == id,
        hr.two_step_flag,
        hr.source_port_identity == hf.source_port_identity,
    ensures
        ({
            let pd = PeerDelayState::Measuring {
                id,
                responder_identity: None,
                request_send_time: Some(t1),
                request_recv_time: None,
                response_send_time: None,
                response_recv_time: None,
            };
            let done = PeerDelayState::Measuring {
                id,
                responder_identity: Some(hr.source_port_identity),
                request_send_time: Some(t1),
                request_recv_time: Some(time_of(request_receive)),
                response_send_time: Some(
                    Time { bits: time_of(response_origin).bits.wrapping_add(correction_bits(hf)) },
                ),
                response_recv_time: Some(Time { bits: recv.bits.wrapping_sub(correction_bits(hr)) }),
            };
            let a = spec_handle_peer_delay_response(pd, ps, own, hr, request_receive, own, recv);
            let a2 = spec_handle_peer_delay_response_follow_up(a.0, a.1, own, hf, response_origin, own);
            let b = spec_handle_peer_delay_response_follow_up(pd, ps, own, hf, response_origin, own);
            let b2 = spec_handle_peer_delay_response(b.0, b.1, own, hr, request_receive, own, recv);
            &&& a.2 == PeerDelayEvent::Measure && a2.2 == PeerDelayEvent::Measure && a2.0 == done
                && a2.1 == ps
            &&& b.2 == PeerDelayEvent::Measure && b2.2 == PeerDelayEvent::Measure && b2.0 == done
                && b2.1 == ps
        }),
{
}

/// A peer delay response from a device other than the one that answered the
/// request makes the port faulty and gives no measurement.
pub proof fn lemma_second_responder_makes_port_faulty(
    t: PortTiming,
    port_identity: PortIdentity,
    header: Header,
    request_receive_timestamp: WireTimestamp,
    recv_time: Time,
)
    requires
        other_responder(t.peer_delay_state, header),
    ensures
        ({
            let (pd, ps, event) = spec_handle_peer_delay_response(
                t.peer_delay_state,
                t.port_state,
                port_identity,
                header,
                request_receive_timestamp,
                port_identity,
                recv_time,
            );
            then_measure(t, ps, pd, event is Measure) == (
                PortTiming { port_state: PortState::Faulty, ..t },
                None::<Measurement>,
            )
        }),
{
}

/// A completed peer delay measurement of a faulty port gives the peer delay
/// and brings the port back to listening.
pub proof fn lemma_peer_delay_measurement_clears_fault(t: PortTiming)
    requires
        t.port_state is Faulty,
        t.peer_delay_state matches PeerDelayState::Measuring {
            responder_identity: Some(_),
            request_send_time: Some(_),
            request_recv_time: Some(_),
            response_send_time: Some(_),
            response_recv_time: Some(_),
            ..
        },
    ensures
        ({
            let (after, m) = then_measure(t, t.port_state, t.peer_delay_state, true);
            &&& after.port_state is Listening
            &&& after.peer_delay_state is PostMeasurement
            &&& m matches Some(measurement) && measurement.peer_delay is Some
        }),
{
}

/// Takes on what the filter reported after a measurement: the mean delay,
/// when it reports one, and the timer that calls it again, when it asks for
/// one.
pub fn apply_filter_update(timing: &mut PortTiming, update: &FilterUpdate) -> (r: Option<
    PortAction<'static>,
>)
    ensures
        final(timing).mean_delay == match update.mean_delay {
            Some(d) => Some(d),
            None => old(timing).mean_delay,
        },
        final(timing).port_state == old(timing).port_state,
        final(timing).peer_delay_state == old(timing).peer_delay_state,
        final(timing).delay_asymmetry == old(timing).delay_asymmetry,
        match update.next_update {
            Some(duration) => r matches Some(PortAction::ResetFilterUpdateTimer { duration: d }) && d
                == duration,
            None => r is None,
        },
{
    match update.mean_delay {
        Some(d) => {
            timing.mean_delay = Some(d);
        },
        None => {},
    }
    filter_update_action(update)
}

} // verus!
