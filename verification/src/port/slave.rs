//! What a slave port does with the sync, follow up and delay response
//! messages of its master, and with the send timestamps of its delay
//! requests (IEEE1588-2019 section 11.3).
//!
//! Each step records the timestamps and tells whether they complete a
//! measurement; [`crate::port::timing`] then extracts it.

use vstd::prelude::*;

use crate::datastructures::{common::{PortIdentity, WireTimestamp}, messages::Header};
use crate::port::state::{DelayState, PortState, SlaveState, SyncState};
use crate::time::{timestamp_bits, Duration, Time};

verus! {

/// The bits of the duration of the correction field of a header.
pub open spec fn correction_bits(h: Header) -> i128 {
    (h.correction_field.bits() * 0x1_0000) as i128
}

/// The time a timestamp stands for.
pub open spec fn time_of(ts: WireTimestamp) -> Time {
    Time { bits: timestamp_bits(ts) as i128 }
}

/// The state after a sync message with header `h`, origin timestamp
/// `origin`, received at `recv`, and whether a measurement follows.
///
/// Only a slave takes a sync of its own master. Of a two step sync the port
/// keeps the receive time, corrected, until the follow up gives the send
/// time; a one step sync gives both. A repeated sync is ignored.
pub open spec fn spec_handle_sync(ps: PortState, h: Header, origin: WireTimestamp, recv: Time) -> (
    PortState,
    bool,
) {
    match ps {
        PortState::Slave(s) => if s.remote_master != h.source_port_identity {
            (ps, false)
        } else {
            let corrected = Time { bits: recv.bits.wrapping_sub(correction_bits(h)) };
            if h.two_step_flag {
                match s.sync_state {
                    SyncState::Measuring { id, send_time, recv_time } if id == h.sequence_id => {
                        if recv_time is Some {
                            (ps, false)
                        } else {
                            (
                                PortState::Slave(
                                    SlaveState {
                                        sync_state: SyncState::Measuring {
                                            id,
                                            send_time,
                                            recv_time: Some(corrected),
                                        },
                                        ..s
                                    },
                                ),
                                true,
                            )
                        }
                    },
                    _ => (
                        PortState::Slave(
                            SlaveState {
                                sync_state: SyncState::Measuring {
                                    id: h.sequence_id,
                                    send_time: None,
                                    recv_time: Some(corrected),
                                },
                                ..s
                            },
                        ),
                        false,
                    ),
                }
            } else {
                match s.sync_state {
                    SyncState::Measuring { id, .. } if id == h.sequence_id => (ps, false),
                    _ => (
                        PortState::Slave(
                            SlaveState {
                                sync_state: SyncState::Measuring {
                                    id: h.sequence_id,
                                    send_time: Some(time_of(origin)),
                                    recv_time: Some(corrected),
                                },
                                ..s
                            },
                        ),
                        true,
                    ),
                }
            }
        },
        _ => (ps, false),
    }
}

/// The state after a follow up message with header `h` and precise origin
/// timestamp `origin`, and whether a measurement follows: a slave takes the
/// corrected send time of the sync of its master it follows up on.
pub open spec fn spec_handle_follow_up(ps: PortState, h: Header, origin: WireTimestamp) -> (
    PortState,
    bool,
) {
    match ps {
        PortState::Slave(s) => if s.remote_master != h.source_port_identity {
            (ps, false)
        } else {
            let send = Time { bits: time_of(origin).bits.wrapping_add(correction_bits(h)) };
            match s.sync_state {
                SyncState::Measuring { id, send_time, recv_time } if id == h.sequence_id => {
                    if send_time is Some {
                        (ps, false)
                    } else {
                        (
                            PortState::Slave(
                                SlaveState {
                                    sync_state: SyncState::Measuring {
                                        id,
                                        send_time: Some(send),
                                        recv_time,
                                    },
                                    ..s
                                },
                            ),
                            true,
                        )
                    }
                },
                _ => (
                    PortState::Slave(
                        SlaveState {
                            sync_state: SyncState::Measuring {
                                id: h.sequence_id,
                                send_time: Some(send),
                                recv_time: None,
                            },
                            ..s
                        },
                    ),
                    true,
                ),
            }
        },
        _ => (ps, false),
    }
}

/// The state after a delay response with header `h`, receive timestamp
/// `receive`, for the requester `requesting`, to the port `own`, and
/// whether a measurement follows: a slave takes the corrected receive time
/// of its own delay request in progress from its own master.
pub open spec fn spec_handle_delay_resp(
    ps: PortState,
    own: PortIdentity,
    h: Header,
    receive: WireTimestamp,
    requesting: PortIdentity,
) -> (PortState, bool) {
    match ps {
        PortState::Slave(s) => if own != requesting || s.remote_master != h.source_port_identity {
            (ps, false)
        } else {
            match s.delay_state {
                DelayState::Measuring { id, send_time, recv_time } if id == h.sequence_id => {
                    if recv_time is Some {
                        (ps, false)
                    } else {
                        (
                            PortState::Slave(
                                SlaveState {
                                    delay_state: DelayState::Measuring {
                                        id,
                                        send_time,
                                        recv_time: Some(
                                            Time {
                                                bits: time_of(receive).bits.wrapping_sub(
                                                    correction_bits(h),
                                                ),
                                            },
                                        ),
                                    },
                                    ..s
                                },
                            ),
                            true,
                        )
                    }
                },
                _ => (ps, false),
            }
        },
        _ => (ps, false),
    }
}

/// The state after the send timestamp `timestamp` of the delay request
/// `timestamp_id` is known, and whether a measurement follows: a slave
/// takes it as the send time of the request in progress, once.
pub open spec fn spec_handle_delay_timestamp(ps: PortState, timestamp_id: u16, timestamp: Time) -> (
    PortState,
    bool,
) {
    match ps {
        PortState::Slave(s) => match s.delay_state {
            DelayState::Measuring { id, send_time, recv_time } if id == timestamp_id => {
                if send_time is Some {
                    (ps, false)
                } else {
                    (
                        PortState::Slave(
                            SlaveState {
                                delay_state: DelayState::Measuring {
                                    id,
                                    send_time: Some(timestamp),
                                    recv_time,
                                },
                                ..s
                            },
                        ),
                        true,
                    )
                }
            },
            _ => (ps, false),
        },
        _ => (ps, false),
    }
}

/// The time a timestamp stands for.
fn time_from(ts: WireTimestamp) -> (r: Time)
    ensures
        r == time_of(ts),
{
    Time::from_timestamp(ts)
}

/// The duration of the correction field of a header.
fn correction(h: &Header) -> (r: Duration)
    ensures
        r.bits == correction_bits(*h),
{
    Duration::from_time_interval(&h.correction_field)
}

/// Handles a sync message with header `header` and origin timestamp
/// `origin_timestamp`, received at `recv_time`.
pub(crate) fn track_sync(
    port_state: &mut PortState,
    header: &Header,
    origin_timestamp: WireTimestamp,
    recv_time: Time,
) -> (measure: bool)
    ensures
        (*final(port_state), measure) == spec_handle_sync(
            *old(port_state),
            *header,
            origin_timestamp,
            recv_time,
        ),
{
    match *port_state {
        PortState::Slave(s) => {
            if !s.remote_master.same_as(&header.source_port_identity) {
                return false;
            }
            // subtracting the correction from the receive time is adding it
            // to the send time
            let corrected = recv_time.minus(correction(header));
            if header.two_step_flag {
                match s.sync_state {
                    SyncState::Measuring { id, send_time, recv_time } if id == header.sequence_id => {
                        if recv_time.is_some() {
                            false
                        } else {
                            *port_state = PortState::Slave(SlaveState {
                                sync_state: SyncState::Measuring {
                                    id,
                                    send_time,
                                    recv_time: Some(corrected),
                                },
                                ..s
                            });
                            true
                        }
                    },
                    _ => {
                        *port_state = PortState::Slave(SlaveState {
                            sync_state: SyncState::Measuring {
                                id: header.sequence_id,
                                send_time: None,
                                recv_time: Some(corrected),
                            },
                            ..s
                        });
                        false
                    },
                }
            } else {
                match s.sync_state {
                    SyncState::Measuring { id, .. } if id == header.sequence_id => false,
                    _ => {
                        *port_state = PortState::Slave(SlaveState {
                            sync_state: SyncState::Measuring {
                                id: header.sequence_id,
                                send_time: Some(time_from(origin_timestamp)),
                                recv_time: Some(corrected),
                            },
                            ..s
                        });
                        true
                    },
                }
            }
        },
        _ => false,
    }
}

/// Handles a follow up message with header `header` and precise origin
/// timestamp `precise_origin_timestamp`.
pub(crate) fn track_follow_up(
    port_state: &mut PortState,
    header: &Header,
    precise_origin_timestamp: WireTimestamp,
) -> (measure: bool)
    ensures
        (*final(port_state), measure) == spec_handle_follow_up(
            *old(port_state),
            *header,
            precise_origin_timestamp,
        ),
{
    match *port_state {
        PortState::Slave(s) => {
            if !s.remote_master.same_as(&header.source_port_identity) {
                return false;
            }
            let packet_send_time = time_from(precise_origin_timestamp).plus(correction(header));
            match s.sync_state {
                SyncState::Measuring { id, send_time, recv_time } if id == header.sequence_id => {
                    if send_time.is_some() {
                        false
                    } else {
                        *port_state = PortState::Slave(SlaveState {
                            sync_state: SyncState::Measuring {
                                id,
                                send_time: Some(packet_send_time),
                                recv_time,
                            },
                            ..s
                        });
                        true
                    }
                },
                _ => {
                    *port_state = PortState::Slave(SlaveState {
                        sync_state: SyncState::Measuring {
                            id: header.sequence_id,
                            send_time: Some(packet_send_time),
                            recv_time: None,
                        },
                        ..s
                    });
                    true
                },
            }
        },
        _ => false,
    }
}

/// Handles a delay response with header `header`, receive timestamp
/// `receive_timestamp` and requesting port `requesting_port_identity`, that
/// the port `port_identity` received.
pub(crate) fn track_delay_resp(
    port_state: &mut PortState,
    port_identity: PortIdentity,
    header: &Header,
    receive_timestamp: WireTimestamp,
    requesting_port_identity: PortIdentity,
) -> (measure: bool)
    ensures
        (*final(port_state), measure) == spec_handle_delay_resp(
            *old(port_state),
            port_identity,
            *header,
            receive_timestamp,
            requesting_port_identity,
        ),
{
    let old_state = *port_state;
    let (new_state, measure) = match old_state {
        PortState::Slave(s) => {
            if !port_identity.same_as(&requesting_port_identity) || !s.remote_master.same_as(
                &header.source_port_identity,
            ) {
                (old_state, false)
            } else {
                match s.delay_state {
                    DelayState::Measuring { id, send_time, recv_time } if id == header.sequence_id => {
                        if recv_time.is_some() {
                            (old_state, false)
                        } else {
                            let t = time_from(receive_timestamp).minus(correction(header));
                            (
                                PortState::Slave(SlaveState {
                                    delay_state: DelayState::Measuring {
                                        id,
                                        send_time,
                                        recv_time: Some(t),
                                    },
                                    ..s
                                }),
                                true,
                            )
                        }
                    },
                    _ => (old_state, false),
                }
            }
        },
        _ => (old_state, false),
    };
    *port_state = new_state;
    measure
}

/// Handles the send timestamp `timestamp` of the delay request with sequence
/// id `timestamp_id`.
pub(crate) fn track_delay_timestamp(port_state: &mut PortState, timestamp_id: u16, timestamp: Time) -> (measure: bool)
    ensures
        (*final(port_state), measure) == spec_handle_delay_timestamp(
            *old(port_state),
            timestamp_id,
            timestamp,
        ),
{
    let old_state = *port_state;
    let (new_state, measure) = match old_state {
        PortState::Slave(s) => match s.delay_state {
            DelayState::Measuring { id, send_time, recv_time } if id == timestamp_id => {
                if send_time.is_some() {
                    (old_state, false)
                } else {
                    (
                        PortState::Slave(SlaveState {
                            delay_state: DelayState::Measuring {
                                id,
                                send_time: Some(timestamp),
                                recv_time,
                            },
                            ..s
                        }),
                        true,
                    )
                }
            },
            _ => (old_state, false),
        },
        _ => (old_state, false),
    };
    *port_state = new_state;
    measure
}

/// Starts a delay measurement for the delay request with sequence id
/// `delay_id`, which a slave then sends to its master. Other ports send no
/// delay request; the result tells whether one is sent.
pub fn start_delay_request(port_state: &mut PortState, delay_id: u16) -> (started: bool)
    ensures
        started == (*old(port_state) is Slave),
        *final(port_state) == match *old(port_state) {
            PortState::Slave(s) => PortState::Slave(
                SlaveState {
                    delay_state: DelayState::Measuring { id: delay_id, send_time: None, recv_time: None },
                    ..s
                },
            ),
            other => other,
        },
{
    let old_state = *port_state;
    let (new_state, started) = match old_state {
        PortState::Slave(s) => (
            PortState::Slave(SlaveState {
                delay_state: DelayState::Measuring { id: delay_id, send_time: None, recv_time: None },
                ..s
            }),
            true,
        ),
        _ => (old_state, false),
    };
    *port_state = new_state;
    started
}

/// A slave takes timing messages only from its own master: a sync, a
/// follow up or a delay response sent by another port leaves its state as
/// it was and completes no measurement.
pub proof fn lemma_other_masters_ignored(
    ps: PortState,
    h: Header,
    ts: WireTimestamp,
    recv: Time,
    own: PortIdentity,
    requesting: PortIdentity,
)
    requires
        ps matches PortState::Slave(s) && s.remote_master != h.source_port_identity,
    ensures
        spec_handle_sync(ps, h, ts, recv) == (ps, false),
        spec_handle_follow_up(ps, h, ts) == (ps, false),
        spec_handle_delay_resp(ps, own, h, ts, requesting) == (ps, false),
{
}

/// Only a slave measures: in any other state, sync, follow up, delay
/// response and delay timestamp leave the state as it was.
pub proof fn lemma_only_slaves_measure(
    ps: PortState,
    h: Header,
    ts: WireTimestamp,
    recv: Time,
    own: PortIdentity,
    requesting: PortIdentity,
    id: u16,
)
    requires
        !(ps is Slave),
    ensures
        spec_handle_sync(ps, h, ts, recv) == (ps, false),
        spec_handle_follow_up(ps, h, ts) == (ps, false),
        spec_handle_delay_resp(ps, own, h, ts, requesting) == (ps, false),
        spec_handle_delay_timestamp(ps, id, recv) == (ps, false),
{
}

/// A delay response to another port's request leaves the state as it was.
pub proof fn lemma_delay_resp_for_others_ignored(
    ps: PortState,
    own: PortIdentity,
    h: Header,
    ts: WireTimestamp,
    requesting: PortIdentity,
)
    requires
        own != requesting,
    ensures
        spec_handle_delay_resp(ps, own, h, ts, requesting) == (ps, false),
{
}

/// A slave keeps following the same master through sync, follow up and
/// delay response: none of them changes its remote master.
pub proof fn lemma_remote_master_kept(
    ps: PortState,
    h: Header,
    ts: WireTimestamp,
    recv: Time,
    own: PortIdentity,
    requesting: PortIdentity,
)
    requires
        ps is Slave,
    ensures
        spec_handle_sync(ps, h, ts, recv).0 matches PortState::Slave(s1) && s1.remote_master
            == ps->Slave_0.remote_master,
        spec_handle_follow_up(ps, h, ts).0 matches PortState::Slave(s2) && s2.remote_master
            == ps->Slave_0.remote_master,
        spec_handle_delay_resp(ps, own, h, ts, requesting).0 matches PortState::Slave(s3)
            && s3.remote_master == ps->Slave_0.remote_master,
{
}

} // verus!
