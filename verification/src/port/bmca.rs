//! How a port takes on the state that the best master clock algorithm
//! recommends.

use vstd::prelude::*;

use crate::{
    bmc::bmca::{Bmca, RecommendedState},
    bmc::foreign_master::{list_view, spec_register_announce_message},
    datastructures::{
        common::{ClockIdentity, LeapIndicator, PortIdentity, TimeSource},
        datasets::{
            empty_path_trace, path_trace_identities, path_trace_push, InternalCurrentDS,
            InternalDefaultDS, InternalParentDS, PathTraceDS, TimePropertiesDS,
        },
        messages::{AnnounceMessage, Header},
    },
    port::state::{PortState, SlaveState},
    time::Duration,
};

verus! {

/// The timers that a port resets when it changes state; they replace the
/// actions it had pending.
#[derive(Debug, Clone, Copy, PartialEq, Eq)]
pub enum PendingTimers {
    /// Reset the announce receipt timer to an announce duration and the delay
    /// request timer to zero: the port starts following a new master.
    AnnounceReceiptAndDelayRequest,
    /// Reset the announce receipt timer to an announce duration: the port
    /// listens again.
    AnnounceReceipt,
    /// Reset the announce and sync timers to zero: the port starts sending
    /// announce and sync messages right away.
    AnnounceAndSync,
}

/// What taking on a recommended state did besides setting the state.
#[derive(Debug, Clone, Copy, PartialEq, Eq)]
pub struct PortStateChange {
    /// The state was forced on the port, even if it is the one it had.
    pub forced: bool,
    /// The filter of the port has to be replaced by a new one: the port
    /// was forced out of or into a state in which its filter does not
    /// steer the clock (slave or faulty, and into faulty).
    pub demobilize_filter: bool,
    /// The timers that replace the pending actions of the port, if any.
    pub pending: Option<PendingTimers>,
}

/// The state a port is in after the recommendation, whether the state was
/// forced on it, and the timers that replace its pending actions.
///
/// `slave_only` is whether the instance may never be a master,
/// `multiport_disabled` whether the port is disabled because another port
/// of the instance is on the same network.
pub open spec fn recommended_transition(
    old: PortState,
    recommended: RecommendedState,
    slave_only: bool,
    multiport_disabled: bool,
) -> (PortState, bool, Option<PendingTimers>) {
    match recommended {
        RecommendedState::S1(announce_message) => {
            let remote_master = announce_message.header.source_port_identity;
            let update = match old {
                PortState::Faulty => false,
                PortState::Slave(s) => s.remote_master != remote_master,
                _ => true,
            };
            if update {
                (
                    PortState::Slave(SlaveState::spec_new(remote_master)),
                    true,
                    Some(PendingTimers::AnnounceReceiptAndDelayRequest),
                )
            } else {
                (old, false, None)
            }
        },
        RecommendedState::M1(_) | RecommendedState::M2(_) | RecommendedState::M3(_) => {
            if slave_only {
                match old {
                    PortState::Slave(_) | PortState::Passive => (
                        PortState::Listening,
                        true,
                        Some(PendingTimers::AnnounceReceipt),
                    ),
                    _ => (old, false, None),
                }
            } else if multiport_disabled {
                if old is Passive {
                    (old, false, None)
                } else {
                    (PortState::Passive, true, None)
                }
            } else {
                match old {
                    PortState::Listening | PortState::Slave(_) | PortState::Passive => (
                        PortState::Master,
                        true,
                        Some(PendingTimers::AnnounceAndSync),
                    ),
                    _ => (old, false, None),
                }
            }
        },
        RecommendedState::P1(_) | RecommendedState::P2(_) => match old {
            PortState::Listening | PortState::Slave(_) | PortState::Master => (
                PortState::Passive,
                true,
                None,
            ),
            _ => (old, false, None),
        },
    }
}

/// A recommendation to be passive (P1, P2) forces a listening, slave or
/// master port into the passive state; a passive or faulty port keeps its
/// state. A slave that goes passive stops steering, so its filter is
/// replaced.
pub proof fn lemma_passive_recommendation(
    old: PortState,
    recommended: RecommendedState,
    slave_only: bool,
    multiport_disabled: bool,
)
    requires
        recommended is P1 || recommended is P2,
    ensures
        ({
            let t = recommended_transition(old, recommended, slave_only, multiport_disabled);
            &&& (old is Listening || old is Slave || old is Master) ==> (t.0 is Passive && t.1 && t.2
                is None)
            &&& (old is Passive || old is Faulty) ==> (t.0 == old && !t.1 && t.2 is None)
            &&& (old is Slave ==> replaces_filter(old, t.0))
        }),
{
}

/// A recommendation to be slave (S1) makes a port follow the sender of the
/// recommended message: a port that is not faulty and does not already
/// follow that sender starts a new slave state for it, which is forced and
/// resets its announce receipt and delay request timers; a port that
/// already follows it, and a faulty port, keep their state.
pub proof fn lemma_slave_recommendation(
    old: PortState,
    a: AnnounceMessage,
    slave_only: bool,
    multiport_disabled: bool,
)
    ensures
        ({
            let t = recommended_transition(old, RecommendedState::S1(a), slave_only, multiport_disabled);
            let sender = a.header.source_port_identity;
            let follows = old matches PortState::Slave(s) && s.remote_master == sender;
            &&& (!(old is Faulty) && !follows) ==> (t.0 == PortState::Slave(SlaveState::spec_new(sender))
                && t.1 && t.2 == Some(PendingTimers::AnnounceReceiptAndDelayRequest))
            &&& (old is Faulty || follows) ==> (t.0 == old && !t.1)
            &&& t.0 is Slave || t.0 is Faulty
        }),
{
}

/// A recommendation to be master (M1, M2, M3): a port of a slave-only
/// instance never becomes master (it stays one if it already was) but
/// listens again (from slave or passive); a port disabled because another port of the instance is on
/// the same network becomes passive; any other port that is listening, slave
/// or passive becomes master, forced, and starts announcing and syncing.
pub proof fn lemma_master_recommendation(
    old: PortState,
    recommended: RecommendedState,
    slave_only: bool,
    multiport_disabled: bool,
)
    requires
        recommended is M1 || recommended is M2 || recommended is M3,
    ensures
        ({
            let t = recommended_transition(old, recommended, slave_only, multiport_disabled);
            &&& slave_only ==> (!(old is Master) ==> !(t.0 is Master)) && ((old is Slave
                || old is Passive) ==> (t.0 is Listening && t.1))
            &&& (!slave_only && multiport_disabled) ==> t.0 is Passive
            &&& (!slave_only && !multiport_disabled && (old is Listening || old is Slave
                || old is Passive)) ==> (t.0 is Master && t.1 && t.2 == Some(
                PendingTimers::AnnounceAndSync,
            ))
            &&& (!slave_only && !multiport_disabled && (old is Master || old is Faulty)) ==> (t.0
                == old && !t.1)
        }),
{
}

/// Whether forcing the state `new` on a port in state `old` replaces its
/// filter.
pub open spec fn replaces_filter(old: PortState, new: PortState) -> bool {
    old is Slave || old is Faulty || new is Faulty
}

/// Sets the state of a port in `port_state` to what the best master clock
/// algorithm recommends (IEEE1588-2019 section 9.2.5), and tells what else
/// the port has to do.
///
/// A port that is recommended to be a slave follows the sender of the
/// recommended announce message, unless it is faulty or already follows
/// it. A port of a slave-only instance that is recommended to be a master
/// listens again instead; a port that is disabled because another port of
/// the instance is on the same network becomes passive.
pub fn set_recommended_port_state(
    port_state: &mut PortState,
    recommended_state: &RecommendedState,
    default_ds: &InternalDefaultDS,
    multiport_disabled: bool,
) -> (r: PortStateChange)
    ensures
        ({
            let t = recommended_transition(
                *old(port_state),
                *recommended_state,
                default_ds.slave_only,
                multiport_disabled,
            );
            &&& *final(port_state) == t.0
            &&& r.forced == t.1
            &&& r.pending == t.2
            &&& r.demobilize_filter == (t.1 && replaces_filter(*old(port_state), t.0))
        }),
{
    match recommended_state {
        RecommendedState::S1(announce_message) => {
            let remote_master = announce_message.header.source_port_identity;
            let update_state = match port_state {
                PortState::Faulty => false,
                PortState::Listening | PortState::Master | PortState::Passive => true,
                PortState::Slave(old_state) => !old_state.remote_master().same_as(&remote_master),
            };
            if update_state {
                let demobilize = set_forced_port_state(port_state, PortState::Slave(SlaveState::new(remote_master)));
                PortStateChange {
                    forced: true,
                    demobilize_filter: demobilize,
                    pending: Some(PendingTimers::AnnounceReceiptAndDelayRequest),
                }
            } else {
                PortStateChange { forced: false, demobilize_filter: false, pending: None }
            }
        },
        RecommendedState::M1(_) | RecommendedState::M2(_) | RecommendedState::M3(_) => {
            if default_ds.slave_only {
                match port_state {
                    PortState::Listening | PortState::Faulty | PortState::Master => {
                        PortStateChange { forced: false, demobilize_filter: false, pending: None }
                    },
                    PortState::Slave(_) | PortState::Passive => {
                        let demobilize = set_forced_port_state(port_state, PortState::Listening);
                        PortStateChange {
                            forced: true,
                            demobilize_filter: demobilize,
                            pending: Some(PendingTimers::AnnounceReceipt),
                        }
                    },
                }
            } else if multiport_disabled {
                if matches!(port_state, PortState::Passive) {
                    PortStateChange { forced: false, demobilize_filter: false, pending: None }
                } else {
                    let demobilize = set_forced_port_state(port_state, PortState::Passive);
                    PortStateChange { forced: true, demobilize_filter: demobilize, pending: None }
                }
            } else {
                match port_state {
                    PortState::Listening | PortState::Slave(_) | PortState::Passive => {
                        let demobilize = set_forced_port_state(port_state, PortState::Master);
                        PortStateChange {
                            forced: true,
                            demobilize_filter: demobilize,
                            pending: Some(PendingTimers::AnnounceAndSync),
                        }
                    },
                    PortState::Master | PortState::Faulty => {
                        PortStateChange { forced: false, demobilize_filter: false, pending: None }
                    },
                }
            }
        },
        RecommendedState::P1(_) | RecommendedState::P2(_) => match port_state {
            PortState::Listening | PortState::Slave(_) | PortState::Master => {
                let demobilize = set_forced_port_state(port_state, PortState::Passive);
                PortStateChange { forced: true, demobilize_filter: demobilize, pending: None }
            },
            PortState::Passive | PortState::Faulty => {
                PortStateChange { forced: false, demobilize_filter: false, pending: None }
            },
        },
    }
}

/// Forces `state` on the port, and tells whether its filter has to be
/// replaced: when it leaves the slave or faulty state, or becomes faulty.
pub fn set_forced_port_state(port_state: &mut PortState, state: PortState) -> (demobilize: bool)
    ensures
        *final(port_state) == state,
        demobilize == replaces_filter(*old(port_state), state),
{
    let demobilize = matches!(port_state, PortState::Slave(_) | PortState::Faulty) || matches!(state, PortState::Faulty);
    *port_state = state;
    demobilize
}

/// A port of a slave-only instance never becomes a master.
pub proof fn lemma_slave_only_never_becomes_master(
    old: PortState,
    recommended: RecommendedState,
    multiport_disabled: bool,
)
    requires
        !(old is Master),
    ensures
        !(recommended_transition(old, recommended, true, multiport_disabled).0 is Master),
{
}

/// A faulty port stays faulty, unless it is disabled because another port of
/// the instance is on the same network and it is recommended to be a master.
pub proof fn lemma_faulty_port_stays_faulty(
    recommended: RecommendedState,
    slave_only: bool,
    multiport_disabled: bool,
)
    requires
        !(multiport_disabled && !slave_only && (recommended is M1 || recommended is M2
            || recommended is M3)),
    ensures
        recommended_transition(PortState::Faulty, recommended, slave_only, multiport_disabled).0
            is Faulty,
{
}

/// Taking on a recommended state twice changes nothing the second time: the
/// port is already in the state and nothing is forced.
pub proof fn lemma_transition_idempotent(
    old: PortState,
    recommended: RecommendedState,
    slave_only: bool,
    multiport_disabled: bool,
)
    ensures
        ({
            let once = recommended_transition(old, recommended, slave_only, multiport_disabled).0;
            let twice = recommended_transition(once, recommended, slave_only, multiport_disabled);
            twice.0 == once && !twice.1
        }),
{
}

/// The clock identities of a path trace: the value of a path trace TLV taken
/// eight bytes at a time, without the bytes left over at the end.
pub open spec fn path_trace_of(value: Seq<u8>) -> Seq<ClockIdentity> {
    Seq::new(value.len() / 8, |i: int| ClockIdentity::from_wire(value, 8 * i))
}

/// Takes on the path trace `value` of an announce message of the port's
/// master (IEEE1588-2019 section 16.2.4), when the path trace option is
/// enabled: if the path holds the instance's own clock identity, the
/// message went round a loop, which is reported and the list is left as it
/// was; otherwise the list becomes the path.
pub fn update_path_trace(
    path_trace_ds: &mut PathTraceDS,
    clock_identity: ClockIdentity,
    value: &[u8],
) -> (clock_loop: bool)
    requires
        value@.len() / 8 <= 128,
    ensures
        clock_loop == (old(path_trace_ds).enable && path_trace_of(value@).contains(clock_identity)),
        final(path_trace_ds).enable == old(path_trace_ds).enable,
        !old(path_trace_ds).enable || clock_loop ==> *final(path_trace_ds) == *old(path_trace_ds),
        old(path_trace_ds).enable && !clock_loop ==> path_trace_identities(final(path_trace_ds).list)
            == path_trace_of(value@),
{
    if !path_trace_ds.enable {
        return false;
    }
    let n = value.len() / 8;
    assert(value@.len() == value.len());
    let ghost path = path_trace_of(value@);
    let mut i: usize = 0;
    while i < n
        invariant
            n == value@.len() / 8,
            value@.len() == value.len(),
            path == path_trace_of(value@),
            old(path_trace_ds).enable,
            *path_trace_ds == *old(path_trace_ds),
            i <= n,
            forall|j: int| 0 <= j < i ==> path[j] != clock_identity,
        decreases n - i,
    {
        assert(8 * i + 8 <= value.len()) by (nonlinear_arith)
            requires
                i < n,
                n == value.len() / 8,
        ;
        let id = ClockIdentity::read_at(value, 8 * i);
        if id.same_as(&clock_identity) {
            assert(path[i as int] == clock_identity);
            assert(path.contains(clock_identity));
            return true;
        }
        i = i + 1;
    }
    assert(!path.contains(clock_identity));
    let mut list = empty_path_trace();
    let mut i: usize = 0;
    while i < n
        invariant
            n == value@.len() / 8,
            value@.len() == value.len(),
            n <= 128,
            old(path_trace_ds).enable,
            *path_trace_ds == *old(path_trace_ds),
            path == path_trace_of(value@),
            i <= n,
            path_trace_identities(list) == path.take(i as int),
        decreases n - i,
    {
        assert(8 * i + 8 <= value.len()) by (nonlinear_arith)
            requires
                i < n,
                n == value.len() / 8,
        ;
        let id = ClockIdentity::read_at(value, 8 * i);
        assert(path.take(i + 1) =~= path.take(i as int).push(id));
        path_trace_push(&mut list, id);
        i = i + 1;
    }
    assert(path.take(n as int) =~= path);
    path_trace_ds.list = list;
    false
}

/// The parent data set of an instance that follows the sender of an
/// announce message.
pub open spec fn parent_of_announce(a: AnnounceMessage) -> InternalParentDS {
    InternalParentDS {
        parent_port_identity: a.header.source_port_identity,
        grandmaster_identity: a.grandmaster_identity,
        grandmaster_clock_quality: a.grandmaster_clock_quality,
        grandmaster_priority_1: a.grandmaster_priority_1,
        grandmaster_priority_2: a.grandmaster_priority_2,
    }
}

/// The parent data set of an instance that is its own grandmaster.
pub open spec fn parent_of_own(d: InternalDefaultDS) -> InternalParentDS {
    InternalParentDS {
        parent_port_identity: PortIdentity { clock_identity: d.clock_identity, port_number: 0 },
        grandmaster_identity: d.clock_identity,
        grandmaster_clock_quality: d.clock_quality,
        grandmaster_priority_1: d.priority_1,
        grandmaster_priority_2: d.priority_2,
    }
}

/// The time properties of an instance that is its own grandmaster: a PTP
/// timescale from its internal oscillator, traceable to nothing.
pub open spec fn own_time_properties() -> TimePropertiesDS {
    TimePropertiesDS {
        current_utc_offset: None,
        leap_indicator: LeapIndicator::NoLeap,
        time_traceable: false,
        frequency_traceable: false,
        ptp_timescale: true,
        time_source: TimeSource::InternalOscillator,
    }
}

/// Takes on the state that the best master clock algorithm recommends for a
/// port, with the data sets of the instance (IEEE1588-2019 section 9.3.5):
/// the port state as [`set_recommended_port_state`] sets it; as a master
/// (M1, M2) the instance is its own grandmaster, with no steps removed, no
/// offset and an empty path trace; as a slave (S1) it takes the grandmaster
/// and the time properties that its master announced, one step further
/// away. For S1 the clock of the port then takes on the new time
/// properties.
pub fn set_recommended_state(
    port_state: &mut PortState,
    recommended_state: &RecommendedState,
    path_trace_ds: &mut PathTraceDS,
    time_properties_ds: &mut TimePropertiesDS,
    current_ds: &mut InternalCurrentDS,
    parent_ds: &mut InternalParentDS,
    default_ds: &InternalDefaultDS,
    multiport_disabled: bool,
) -> (r: PortStateChange)
    requires
        recommended_state matches RecommendedState::S1(a) ==> a.steps_removed < u16::MAX,
    ensures
        ({
            let t = recommended_transition(
                *old(port_state),
                *recommended_state,
                default_ds.slave_only,
                multiport_disabled,
            );
            &&& *final(port_state) == t.0
            &&& r.forced == t.1
            &&& r.pending == t.2
            &&& r.demobilize_filter == (t.1 && replaces_filter(*old(port_state), t.0))
        }),
        match *recommended_state {
            RecommendedState::M1(d) | RecommendedState::M2(d) => {
                &&& *final(current_ds) == InternalCurrentDS {
                    steps_removed: 0,
                    offset_from_master: Duration { bits: 0 },
                    ..*old(current_ds)
                }
                &&& *final(parent_ds) == parent_of_own(d)
                &&& *final(time_properties_ds) == own_time_properties()
                &&& path_trace_identities(final(path_trace_ds).list) == Seq::<ClockIdentity>::empty()
                &&& final(path_trace_ds).enable == old(path_trace_ds).enable
            },
            RecommendedState::S1(a) => {
                &&& *final(current_ds) == InternalCurrentDS {
                    steps_removed: (a.steps_removed + 1) as u16,
                    ..*old(current_ds)
                }
                &&& *final(parent_ds) == parent_of_announce(a)
                &&& *final(time_properties_ds) == a.spec_time_properties()
                &&& *final(path_trace_ds) == *old(path_trace_ds)
            },
            _ => {
                &&& *final(current_ds) == *old(current_ds)
                &&& *final(parent_ds) == *old(parent_ds)
                &&& *final(time_properties_ds) == *old(time_properties_ds)
                &&& *final(path_trace_ds) == *old(path_trace_ds)
            },
        },
{
    let r = set_recommended_port_state(port_state, recommended_state, default_ds, multiport_disabled);
    match recommended_state {
        RecommendedState::M1(defaultds) | RecommendedState::M2(defaultds) => {
            current_ds.steps_removed = 0;
            current_ds.offset_from_master = Duration::zero();
            parent_ds.parent_port_identity = PortIdentity {
                clock_identity: defaultds.clock_identity,
                port_number: 0,
            };
            parent_ds.grandmaster_identity = defaultds.clock_identity;
            parent_ds.grandmaster_clock_quality = defaultds.clock_quality;
            parent_ds.grandmaster_priority_1 = defaultds.priority_1;
            parent_ds.grandmaster_priority_2 = defaultds.priority_2;
            time_properties_ds.leap_indicator = LeapIndicator::NoLeap;
            time_properties_ds.current_utc_offset = None;
            time_properties_ds.ptp_timescale = true;
            time_properties_ds.time_traceable = false;
            time_properties_ds.frequency_traceable = false;
            time_properties_ds.time_source = TimeSource::InternalOscillator;
            path_trace_ds.list = empty_path_trace();
        },
        RecommendedState::M3(_) | RecommendedState::P1(_) | RecommendedState::P2(_) => {},
        RecommendedState::S1(announce_message) => {
            current_ds.steps_removed = announce_message.steps_removed + 1;
            parent_ds.parent_port_identity = announce_message.header.source_port_identity;
            parent_ds.grandmaster_identity = announce_message.grandmaster_identity;
            parent_ds.grandmaster_clock_quality = announce_message.grandmaster_clock_quality;
            parent_ds.grandmaster_priority_1 = announce_message.grandmaster_priority_1;
            parent_ds.grandmaster_priority_2 = announce_message.grandmaster_priority_2;
            *time_properties_ds = announce_message.time_properties();
        },
    }
    r
}

/// What an announce message did to a port.
#[derive(Debug, Clone, Copy, PartialEq, Eq)]
pub enum AnnounceOutcome {
    /// The path trace of the message from the port's master holds the
    /// instance itself: the message went round a loop and nothing else is
    /// done with it.
    ClockLoop,
    /// The message came from the port itself and is not taken into account.
    NotRegistered,
    /// The message was taken into account: the port resets its announce
    /// receipt timer and forwards the message's TLVs.
    Registered {
        /// The sender is another port of this instance with a lower number,
        /// on the same network: this port is disabled and forced into the
        /// passive state.
        multiport_disable: bool,
        /// Forcing the passive state replaced the filter of the port.
        demobilize_filter: bool,
    },
}

/// Whether an announce message comes from the port's master: the port is a
/// slave and the sender is its parent.
pub open spec fn from_master(ps: PortState, parent: InternalParentDS, a: AnnounceMessage) -> bool {
    ps is Slave && a.header.source_port_identity == parent.parent_port_identity
}

/// Handles an announce message `announce`, with header `header`, that the
/// port `port_identity` of the instance with clock `own_clock_identity`
/// received; `path_trace` is the value of its path trace TLV, if it has one.
///
/// A message from the port's master (IEEE1588-2019 9.5.3, decision S1)
/// updates the data sets of the instance: one step further from the
/// grandmaster it announces, with its time properties, and the path trace
/// (see [`update_path_trace`]); a path trace with the instance itself in it
/// is a loop, and the message is dropped. Otherwise the message is
/// registered with the best master clock algorithm, and a message from a
/// lower numbered port of the same instance disables this port.
pub fn handle_announce(
    port_state: &mut PortState,
    port_identity: PortIdentity,
    own_clock_identity: ClockIdentity,
    current_ds: &mut InternalCurrentDS,
    parent_ds: &mut InternalParentDS,
    time_properties_ds: &mut TimePropertiesDS,
    path_trace_ds: &mut PathTraceDS,
    bmca: &mut Bmca,
    header: &Header,
    announce: &AnnounceMessage,
    path_trace: Option<&[u8]>,
) -> (r: AnnounceOutcome)
    requires
        from_master(*old(port_state), *old(parent_ds), *announce) ==> announce.steps_removed < u16::MAX,
        path_trace matches Some(v) ==> v@.len() / 8 <= 128,
    ensures
        ({
            let follows = from_master(*old(port_state), *old(parent_ds), *announce);
            let clock_loop = follows && old(path_trace_ds).enable && (path_trace matches Some(v)
                && path_trace_of(v@).contains(own_clock_identity));
            let registered = announce.header.source_port_identity != old(bmca).own_port_identity;
            let multiport = port_identity.clock_identity == header.source_port_identity.clock_identity
                && port_identity.port_number > header.source_port_identity.port_number;
            &&& follows ==> *final(current_ds) == InternalCurrentDS {
                steps_removed: (announce.steps_removed + 1) as u16,
                ..*old(current_ds)
            } && *final(parent_ds) == parent_of_announce(*announce) && *final(time_properties_ds)
                == announce.spec_time_properties()
            &&& !follows ==> *final(current_ds) == *old(current_ds) && *final(parent_ds) == *old(parent_ds) && *final(time_properties_ds) == *old(time_properties_ds)
            &&& final(path_trace_ds).enable == old(path_trace_ds).enable
            &&& (path_trace is Some && follows && old(path_trace_ds).enable && !clock_loop)
                ==> path_trace_identities(final(path_trace_ds).list) == path_trace_of(
                path_trace.unwrap()@,
            )
            &&& !(follows && old(path_trace_ds).enable && !clock_loop && path_trace is Some)
                ==> *final(path_trace_ds) == *old(path_trace_ds)
            &&& clock_loop ==> r == AnnounceOutcome::ClockLoop && *final(port_state) == *old(port_state) && list_view(final(bmca).foreign_master_list) == list_view(old(bmca).foreign_master_list)
            &&& !clock_loop && !registered ==> r == AnnounceOutcome::NotRegistered && *final(port_state) == *old(port_state) && list_view(final(bmca).foreign_master_list) == list_view(old(bmca).foreign_master_list)
            &&& !clock_loop && registered ==> {
                &&& r == AnnounceOutcome::Registered {
                    multiport_disable: multiport,
                    demobilize_filter: multiport && replaces_filter(*old(port_state), PortState::Passive),
                }
                &&& *final(port_state) == if multiport {
                    PortState::Passive
                } else {
                    *old(port_state)
                }
                &&& list_view(final(bmca).foreign_master_list) == spec_register_announce_message(
                    old(bmca).foreign_master_list,
                    *announce,
                    Duration { bits: 0 },
                )
            }
            &&& final(bmca).own_port_identity == old(bmca).own_port_identity
        }),
{
    let follows = match port_state {
        PortState::Slave(_) => announce.header.source_port_identity.same_as(&parent_ds.parent_port_identity),
        _ => false,
    };
    if follows {
        current_ds.steps_removed = announce.steps_removed + 1;
        parent_ds.parent_port_identity = announce.header.source_port_identity;
        parent_ds.grandmaster_identity = announce.grandmaster_identity;
        parent_ds.grandmaster_clock_quality = announce.grandmaster_clock_quality;
        parent_ds.grandmaster_priority_1 = announce.grandmaster_priority_1;
        parent_ds.grandmaster_priority_2 = announce.grandmaster_priority_2;
        *time_properties_ds = announce.time_properties();
        if let Some(value) = path_trace {
            if update_path_trace(path_trace_ds, own_clock_identity, value) {
                return AnnounceOutcome::ClockLoop;
            }
        }
    }
    if bmca.register_announce_message(header, announce) {
        // Doing the multiport-same network check after registering the
        // announce message makes the message acceptable first.
        let multiport = port_identity.clock_identity.same_as(&header.source_port_identity.clock_identity)
            && port_identity.port_number > header.source_port_identity.port_number;
        let demobilize_filter = if multiport {
            set_forced_port_state(port_state, PortState::Passive)
        } else {
            false
        };
        AnnounceOutcome::Registered { multiport_disable: multiport, demobilize_filter }
    } else {
        AnnounceOutcome::NotRegistered
    }
}

} // verus!
