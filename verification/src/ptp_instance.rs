//! The best master clock algorithm of a PTP instance, run over all its
//! ports (IEEE1588-2019 section 9.3): every port takes the best announce
//! message it received, the instance picks the best of those, and every port
//! takes on the state that the state decision algorithm recommends for it,
//! updating the data sets of the instance.

use vstd::prelude::*;

use crate::bmc::bmca::{
    best_candidate, best_of, lemma_best_of_is_member, port_candidates, recommended_state, BestAnnounceMessage, Bmca,
    RecommendedState,
};
use crate::bmc::foreign_master::{aged_masters, cutoff_bits, list_view, registered_in, taken, MasterView};
use crate::datastructures::{
    common::{ClockIdentity, WireTimestamp},
    datasets::{
        path_trace_identities, InternalCurrentDS, InternalDefaultDS, InternalParentDS, PathTraceDS,
        TimePropertiesDS,
    },
};
use crate::port::bmca::{
    own_time_properties, parent_of_announce, parent_of_own, recommended_transition,
    set_recommended_state,
};
use crate::port::state::PortState;
use crate::time::{shorter_than_interval, Duration, Interval};

verus! {

/// What a port brings to the best master clock algorithm of its instance.
pub struct PortBmca {
    /// The foreign masters that the port heard.
    pub bmca: Bmca,
    /// The state of the port.
    pub port_state: PortState,
    /// Whether the port may only be a master.
    pub master_only: bool,
    /// The announce interval of the port.
    pub announce_interval: Interval,
    /// How long ago the port was disabled because another port of the
    /// instance is on the same network, while it is.
    pub multiport_disable: Option<Duration>,
    /// The best announce message the port received in the last run.
    pub local_best: Option<BestAnnounceMessage>,
}

/// How long ago a port was disabled after time `step` more: it stays
/// disabled for one announce interval.
pub open spec fn aged_disable(d: Option<Duration>, step: Duration, interval: Interval) -> Option<
    Duration,
> {
    match d {
        Some(age) => {
            let a = age.bits.wrapping_add(step.bits);
            if shorter_than_interval(a as int, interval.log_2()) {
                Some(Duration { bits: a })
            } else {
                None
            }
        },
        None => None,
    }
}

impl PortBmca {
    /// The best announce message that the port takes at `now` (its Erbest);
    /// see [`Bmca::take_best_port_announce_message`].
    pub open spec fn spec_local_best(self, now: WireTimestamp) -> Option<BestAnnounceMessage> {
        let msgs = taken(list_view(self.bmca.foreign_master_list)).1;
        match best_candidate(port_candidates(msgs, now, self.bmca.own_port_identity)) {
            Some(b) => Some(b.0),
            None => None,
        }
    }

    /// The foreign masters of the port after it took its best announce
    /// message at `now`.
    pub open spec fn list_after_best(self, now: WireTimestamp) -> Seq<MasterView> {
        let l = self.bmca.foreign_master_list;
        let (rest, msgs) = taken(list_view(l));
        match best_candidate(port_candidates(msgs, now, self.bmca.own_port_identity)) {
            Some(b) => if b.0.message.header.source_port_identity != self.bmca.own_port_identity {
                registered_in(rest, l.own_port_identity, l.own_port_announce_interval, b.0.message, b.1)
            } else {
                rest
            },
            None => rest,
        }
    }

    /// The best message of the port that takes part in the choice of the
    /// best message of the instance: none for a port that may only be a
    /// master or that is faulty.
    pub open spec fn spec_for_bmca(self) -> Option<BestAnnounceMessage> {
        if self.master_only || self.port_state is Faulty {
            None
        } else {
            self.local_best
        }
    }

    /// Takes the best announce message that the port received at `now`.
    pub fn calculate_best_local_announce_message(&mut self, now: WireTimestamp)
        ensures
            final(self).local_best == old(self).spec_local_best(now),
            list_view(final(self).bmca.foreign_master_list) == old(self).list_after_best(now),
            final(self).bmca.own_port_identity == old(self).bmca.own_port_identity,
            final(self).bmca.foreign_master_list.own_port_identity
                == old(self).bmca.foreign_master_list.own_port_identity,
            final(self).bmca.foreign_master_list.own_port_announce_interval
                == old(self).bmca.foreign_master_list.own_port_announce_interval,
            final(self).port_state == old(self).port_state,
            final(self).master_only == old(self).master_only,
            final(self).announce_interval == old(self).announce_interval,
            final(self).multiport_disable == old(self).multiport_disable,
    {
        self.local_best = self.bmca.take_best_port_announce_message(now);
    }

    /// The best message of the port for the choice of the best message of
    /// the instance.
    pub fn best_local_announce_message_for_bmca(&self) -> (r: Option<BestAnnounceMessage>)
        ensures
            r == self.spec_for_bmca(),
    {
        if self.master_only || matches!(self.port_state, PortState::Faulty) {
            None
        } else {
            self.local_best
        }
    }

    /// The best message of the port for the decision of its state.
    pub fn best_local_announce_message_for_state(&self) -> (r: Option<BestAnnounceMessage>)
        ensures
            r == self.local_best,
    {
        self.local_best
    }

    /// Lets time `step` pass for the port: for its foreign masters, and for
    /// how long it has been disabled.
    pub fn step_announce_age(&mut self, step: Duration)
        ensures
            final(self).multiport_disable == aged_disable(
                old(self).multiport_disable,
                step,
                old(self).announce_interval,
            ),
            list_view(final(self).bmca.foreign_master_list) == aged_masters(
                list_view(old(self).bmca.foreign_master_list),
                step,
                cutoff_bits(old(self).bmca.foreign_master_list.own_port_announce_interval),
            ),
            final(self).bmca.own_port_identity == old(self).bmca.own_port_identity,
            final(self).bmca.foreign_master_list.own_port_identity
                == old(self).bmca.foreign_master_list.own_port_identity,
            final(self).bmca.foreign_master_list.own_port_announce_interval
                == old(self).bmca.foreign_master_list.own_port_announce_interval,
            final(self).port_state == old(self).port_state,
            final(self).master_only == old(self).master_only,
            final(self).announce_interval == old(self).announce_interval,
            final(self).local_best == old(self).local_best,
    {
        match self.multiport_disable {
            Some(age) => {
                let a = age.plus(step);
                if self.announce_interval.exceeds(a) {
                    self.multiport_disable = Some(a);
                } else {
                    self.multiport_disable = None;
                }
            },
            None => {},
        }
        self.bmca.step_age(step);
    }
}


/// The port `p` once it took its best announce message at `now`, as far as
/// the choice of states reads it.
pub open spec fn with_local_best(p: PortBmca, now: WireTimestamp) -> PortBmca {
    PortBmca { local_best: p.spec_local_best(now), ..p }
}

/// The best messages of the ports that take part in the choice of the best
/// message of the instance, in the order of the ports.
pub open spec fn bmca_messages(ports: Seq<PortBmca>) -> Seq<BestAnnounceMessage>
    decreases ports.len(),
{
    if ports.len() == 0 {
        Seq::empty()
    } else {
        let rest = bmca_messages(ports.drop_last());
        match ports.last().spec_for_bmca() {
            Some(m) => rest.push(m),
            None => rest,
        }
    }
}

/// The state that the state decision algorithm recommends for the port
/// `p`, given the best message `ebest` of the instance. A recommendation to
/// follow a master that is already `u16::MAX` steps away from its
/// grandmaster cannot be taken and is left out.
pub open spec fn port_recommendation(
    default_ds: InternalDefaultDS,
    ebest: Option<BestAnnounceMessage>,
    p: PortBmca,
) -> Option<RecommendedState> {
    let r = recommended_state(default_ds, ebest, p.local_best, p.port_state is Listening);
    if r matches Some(RecommendedState::S1(a)) && a.steps_removed == u16::MAX {
        None
    } else {
        r
    }
}

/// The state of the port `p` after it took on its recommended state.
pub open spec fn state_after(
    default_ds: InternalDefaultDS,
    ebest: Option<BestAnnounceMessage>,
    p: PortBmca,
) -> PortState {
    match port_recommendation(default_ds, ebest, p) {
        Some(rs) => recommended_transition(
            p.port_state,
            rs,
            default_ds.slave_only,
            p.multiport_disable is Some,
        ).0,
        None => p.port_state,
    }
}

/// The current, parent and time properties data sets of an instance, and
/// the identities of its path trace.
pub type DataSets = (InternalCurrentDS, InternalParentDS, TimePropertiesDS, Seq<ClockIdentity>);

/// The data sets after a port took on the recommended state `rs` (see
/// [`set_recommended_state`]).
pub open spec fn recommended_data_sets(rs: RecommendedState, ds: DataSets) -> DataSets {
    match rs {
        RecommendedState::M1(d) | RecommendedState::M2(d) => (
            InternalCurrentDS { steps_removed: 0, offset_from_master: Duration { bits: 0 }, ..ds.0 },
            parent_of_own(d),
            own_time_properties(),
            Seq::empty(),
        ),
        RecommendedState::S1(a) => (
            InternalCurrentDS { steps_removed: (a.steps_removed + 1) as u16, ..ds.0 },
            parent_of_announce(a),
            a.spec_time_properties(),
            ds.3,
        ),
        _ => ds,
    }
}

/// The data sets after the ports, one after the other, took on their
/// recommended states.
pub open spec fn data_sets_after(
    default_ds: InternalDefaultDS,
    ebest: Option<BestAnnounceMessage>,
    ports: Seq<PortBmca>,
    ds: DataSets,
) -> DataSets
    decreases ports.len(),
{
    if ports.len() == 0 {
        ds
    } else {
        let before = data_sets_after(default_ds, ebest, ports.drop_last(), ds);
        match port_recommendation(default_ds, ebest, ports.last()) {
            Some(rs) => recommended_data_sets(rs, before),
            None => before,
        }
    }
}

/// A port contributes its best message to the choice of the best message
/// of the instance exactly when it is neither faulty nor master only.
pub proof fn lemma_who_takes_part(p: PortBmca)
    ensures
        (p.master_only || p.port_state is Faulty) ==> p.spec_for_bmca() is None,
        !(p.master_only || p.port_state is Faulty) ==> p.spec_for_bmca() == p.local_best,
{
}

/// Every message in the choice of the best message of the instance is the
/// best message of a port that is neither faulty nor master only, and every
/// such port with a best message contributes it.
pub proof fn lemma_bmca_messages_from_taking_ports(ports: Seq<PortBmca>)
    ensures
        forall|k: int|
            0 <= k < bmca_messages(ports).len() ==> exists|i: int|
                0 <= i < ports.len() && !ports[i].master_only && !(ports[i].port_state is Faulty)
                    && ports[i].local_best == Some(#[trigger] bmca_messages(ports)[k]),
        forall|i: int|
            0 <= i < ports.len() && !ports[i].master_only && !(ports[i].port_state is Faulty)
                && #[trigger] ports[i].local_best is Some ==> bmca_messages(ports).contains(
                ports[i].local_best->0,
            ),
    decreases ports.len(),
{
    if ports.len() > 0 {
        let t = ports.drop_last();
        lemma_bmca_messages_from_taking_ports(t);
        let last = ports.last();
        let n = ports.len() - 1;
        assert(ports[n] == last);
        assert forall|k: int| 0 <= k < bmca_messages(ports).len() implies exists|i: int|
            0 <= i < ports.len() && !ports[i].master_only && !(ports[i].port_state is Faulty)
                && ports[i].local_best == Some(#[trigger] bmca_messages(ports)[k]) by {
            if k < bmca_messages(t).len() {
                assert(bmca_messages(ports)[k] == bmca_messages(t)[k]);
                let i = choose|i: int|
                    0 <= i < t.len() && !t[i].master_only && !(t[i].port_state is Faulty)
                        && t[i].local_best == Some(#[trigger] bmca_messages(t)[k]);
                assert(ports[i] == t[i]);
            } else {
                assert(ports[n].local_best == Some(bmca_messages(ports)[k]));
            }
        }
        assert forall|i: int|
            0 <= i < ports.len() && !ports[i].master_only && !(ports[i].port_state is Faulty)
                && #[trigger] ports[i].local_best is Some implies bmca_messages(ports).contains(
            ports[i].local_best->0,
        ) by {
            let m = ports[i].local_best->0;
            if i < n {
                assert(t[i] == ports[i]);
                assert(bmca_messages(t).contains(m));
                let k = choose|k: int| 0 <= k < bmca_messages(t).len() && bmca_messages(t)[k] == m;
                assert(bmca_messages(ports)[k] == m);
            } else {
                assert(bmca_messages(ports).last() == m);
                assert(bmca_messages(ports)[bmca_messages(ports).len() - 1] == m);
            }
        }
    }
}

/// The best message of the instance was heard by a port that is neither
/// faulty nor master only, and it is that port's own best message.
pub proof fn lemma_ebest_from_taking_port(ports: Seq<PortBmca>)
    ensures
        best_of(bmca_messages(ports)) matches Some(b) ==> exists|i: int|
            0 <= i < ports.len() && !ports[i].master_only && !(ports[i].port_state is Faulty)
                && #[trigger] ports[i].local_best == Some(b),
{
    lemma_best_of_is_member(bmca_messages(ports));
    lemma_bmca_messages_from_taking_ports(ports);
    if let Some(b) = best_of(bmca_messages(ports)) {
        let k = choose|k: int| 0 <= k < bmca_messages(ports).len() && bmca_messages(ports)[k] == b;
        assert(bmca_messages(ports)[k] == b);
    }
}

/// What a faulty port heard has no part in the choice of the best message
/// of the instance: giving it another best message changes nothing.
pub proof fn lemma_faulty_port_ignored(ports: Seq<PortBmca>, i: int, other: Option<BestAnnounceMessage>)
    requires
        0 <= i < ports.len(),
        ports[i].port_state is Faulty,
    ensures
        bmca_messages(ports.update(i, PortBmca { local_best: other, ..ports[i] })) == bmca_messages(
            ports,
        ),
{
    let changed = ports.update(i, PortBmca { local_best: other, ..ports[i] });
    assert forall|j: int| 0 <= j < changed.len() implies #[trigger] changed[j].spec_for_bmca()
        == ports[j].spec_for_bmca() by {
        if j == i {
            assert(changed[j].port_state is Faulty);
        }
    }
    lemma_bmca_messages_same(changed, ports);
}

/// The choice of the best message reads of a port only its best message,
/// whether it may only be a master and whether it is faulty.
proof fn lemma_bmca_messages_same(a: Seq<PortBmca>, b: Seq<PortBmca>)
    requires
        a.len() == b.len(),
        forall|i: int| 0 <= i < a.len() ==> #[trigger] a[i].spec_for_bmca() == b[i].spec_for_bmca(),
    ensures
        bmca_messages(a) == bmca_messages(b),
    decreases a.len(),
{
    if a.len() > 0 {
        lemma_bmca_messages_same(a.drop_last(), b.drop_last());
        assert(a.last().spec_for_bmca() == b.last().spec_for_bmca());
    }
}

/// The update of the data sets reads of a port only its recommendation.
proof fn lemma_data_sets_same(
    default_ds: InternalDefaultDS,
    ebest: Option<BestAnnounceMessage>,
    a: Seq<PortBmca>,
    b: Seq<PortBmca>,
    ds: DataSets,
)
    requires
        a.len() == b.len(),
        forall|i: int|
            0 <= i < a.len() ==> #[trigger] port_recommendation(default_ds, ebest, a[i])
                == port_recommendation(default_ds, ebest, b[i]),
    ensures
        data_sets_after(default_ds, ebest, a, ds) == data_sets_after(default_ds, ebest, b, ds),
    decreases a.len(),
{
    if a.len() > 0 {
        lemma_data_sets_same(default_ds, ebest, a.drop_last(), b.drop_last(), ds);
        assert(port_recommendation(default_ds, ebest, a.last()) == port_recommendation(
            default_ds,
            ebest,
            b.last(),
        ));
    }
}

/// Every port takes the best announce message it received at `now`.
fn take_local_bests(ports: &mut Vec<PortBmca>, now: WireTimestamp)
    ensures
        final(ports)@.len() == old(ports)@.len(),
        forall|i: int|
            0 <= i < old(ports)@.len() ==> {
                let p = #[trigger] final(ports)@[i];
                let q = old(ports)@[i];
                &&& p == (PortBmca { local_best: q.spec_local_best(now), bmca: p.bmca, ..q })
                &&& list_view(p.bmca.foreign_master_list) == q.list_after_best(now)
                &&& p.bmca.own_port_identity == q.bmca.own_port_identity
                &&& p.bmca.foreign_master_list.own_port_identity
                    == q.bmca.foreign_master_list.own_port_identity
                &&& p.bmca.foreign_master_list.own_port_announce_interval
                    == q.bmca.foreign_master_list.own_port_announce_interval
            },
{
    let ghost start = ports@;
    let mut i: usize = 0;
    while i < ports.len()
        invariant
            ports@.len() == start.len(),
            i <= ports@.len(),
            forall|j: int|
                0 <= j < i ==> {
                    let p = #[trigger] ports@[j];
                    let q = start[j];
                    &&& p == (PortBmca { local_best: q.spec_local_best(now), bmca: p.bmca, ..q })
                    &&& list_view(p.bmca.foreign_master_list) == q.list_after_best(now)
                    &&& p.bmca.own_port_identity == q.bmca.own_port_identity
                    &&& p.bmca.foreign_master_list.own_port_identity
                        == q.bmca.foreign_master_list.own_port_identity
                    &&& p.bmca.foreign_master_list.own_port_announce_interval
                        == q.bmca.foreign_master_list.own_port_announce_interval
                },
            forall|j: int| i <= j < ports@.len() ==> #[trigger] ports@[j] == start[j],
        decreases ports@.len() - i,
    {
        ports[i].calculate_best_local_announce_message(now);
        i = i + 1;
    }
}

/// The best message of the instance (its Ebest): the best of the best
/// messages of its ports that take part.
pub fn best_of_instance(ports: &Vec<PortBmca>) -> (r: Option<BestAnnounceMessage>)
    ensures
        r == best_of(bmca_messages(ports@)),
{
    let mut messages: Vec<BestAnnounceMessage> = Vec::new();
    let mut i: usize = 0;
    while i < ports.len()
        invariant
            i <= ports@.len(),
            messages@ == bmca_messages(ports@.take(i as int)),
        decreases ports@.len() - i,
    {
        assert(ports@.take(i + 1).drop_last() =~= ports@.take(i as int));
        match ports[i].best_local_announce_message_for_bmca() {
            Some(m) => messages.push(m),
            None => {},
        }
        i = i + 1;
    }
    assert(ports@.take(ports@.len() as int) =~= ports@);
    Bmca::find_best_announce_message(messages.as_slice())
}

/// Every port takes on the state that the state decision algorithm
/// recommends for it, and updates the data sets of the instance.
fn take_recommended_states(
    default_ds: &InternalDefaultDS,
    ebest: Option<BestAnnounceMessage>,
    ports: &mut Vec<PortBmca>,
    current_ds: &mut InternalCurrentDS,
    parent_ds: &mut InternalParentDS,
    time_properties_ds: &mut TimePropertiesDS,
    path_trace_ds: &mut PathTraceDS,
)
    ensures
        final(ports)@.len() == old(ports)@.len(),
        forall|i: int|
            0 <= i < old(ports)@.len() ==> #[trigger] final(ports)@[i] == (PortBmca {
                port_state: state_after(*default_ds, ebest, old(ports)@[i]),
                ..old(ports)@[i]
            }),
        (*final(current_ds), *final(parent_ds), *final(time_properties_ds), path_trace_identities(
            final(path_trace_ds).list,
        )) == data_sets_after(
            *default_ds,
            ebest,
            old(ports)@,
            (
                *old(current_ds),
                *old(parent_ds),
                *old(time_properties_ds),
                path_trace_identities(old(path_trace_ds).list),
            ),
        ),
        final(path_trace_ds).enable == old(path_trace_ds).enable,
{
    let ghost start = ports@;
    let ghost ds0 = (
        *current_ds,
        *parent_ds,
        *time_properties_ds,
        path_trace_identities(path_trace_ds.list),
    );
    let ghost enable = path_trace_ds.enable;
    let mut i: usize = 0;
    while i < ports.len()
        invariant
            ports@.len() == start.len(),
            i <= ports@.len(),
            forall|j: int|
                0 <= j < i ==> #[trigger] ports@[j] == (PortBmca {
                    port_state: state_after(*default_ds, ebest, start[j]),
                    ..start[j]
                }),
            forall|j: int| i <= j < ports@.len() ==> #[trigger] ports@[j] == start[j],
            (*current_ds, *parent_ds, *time_properties_ds, path_trace_identities(path_trace_ds.list))
                == data_sets_after(*default_ds, ebest, start.take(i as int), ds0),
            path_trace_ds.enable == enable,
        decreases ports@.len() - i,
    {
        assert(start.take(i + 1).drop_last() =~= start.take(i as int));
        assert(ports@[i as int] == start[i as int]);
        let rs = Bmca::calculate_recommended_state(
            default_ds,
            ebest,
            ports[i].local_best,
            &ports[i].port_state,
        );
        match rs {
            Some(rs) => {
                let takeable = match &rs {
                    RecommendedState::S1(a) => a.steps_removed < u16::MAX,
                    _ => true,
                };
                if takeable {
                    let disabled = ports[i].multiport_disable.is_some();
                    set_recommended_state(
                        &mut ports[i].port_state,
                        &rs,
                        path_trace_ds,
                        time_properties_ds,
                        current_ds,
                        parent_ds,
                        default_ds,
                        disabled,
                    );
                }
            },
            None => {},
        }
        i = i + 1;
    }
    assert(start.take(start.len() as int) =~= start);
}

/// Lets time `step` pass for every port.
fn step_ages(ports: &mut Vec<PortBmca>, step: Duration)
    ensures
        final(ports)@.len() == old(ports)@.len(),
        forall|i: int|
            0 <= i < old(ports)@.len() ==> {
                let p = #[trigger] final(ports)@[i];
                let q = old(ports)@[i];
                &&& p == (PortBmca {
                    multiport_disable: aged_disable(q.multiport_disable, step, q.announce_interval),
                    bmca: p.bmca,
                    ..q
                })
                &&& list_view(p.bmca.foreign_master_list) == aged_masters(
                    list_view(q.bmca.foreign_master_list),
                    step,
                    cutoff_bits(q.bmca.foreign_master_list.own_port_announce_interval),
                )
                &&& p.bmca.own_port_identity == q.bmca.own_port_identity
                &&& p.bmca.foreign_master_list.own_port_identity
                    == q.bmca.foreign_master_list.own_port_identity
                &&& p.bmca.foreign_master_list.own_port_announce_interval
                    == q.bmca.foreign_master_list.own_port_announce_interval
            },
{
    let ghost start = ports@;
    let mut i: usize = 0;
    while i < ports.len()
        invariant
            ports@.len() == start.len(),
            i <= ports@.len(),
            forall|j: int|
                0 <= j < i ==> {
                    let p = #[trigger] ports@[j];
                    let q = start[j];
                    &&& p == (PortBmca {
                        multiport_disable: aged_disable(q.multiport_disable, step, q.announce_interval),
                        bmca: p.bmca,
                        ..q
                    })
                    &&& list_view(p.bmca.foreign_master_list) == aged_masters(
                        list_view(q.bmca.foreign_master_list),
                        step,
                        cutoff_bits(q.bmca.foreign_master_list.own_port_announce_interval),
                    )
                    &&& p.bmca.own_port_identity == q.bmca.own_port_identity
                    &&& p.bmca.foreign_master_list.own_port_identity
                        == q.bmca.foreign_master_list.own_port_identity
                    &&& p.bmca.foreign_master_list.own_port_announce_interval
                        == q.bmca.foreign_master_list.own_port_announce_interval
                },
            forall|j: int| i <= j < ports@.len() ==> #[trigger] ports@[j] == start[j],
        decreases ports@.len() - i,
    {
        assert(ports@[i as int] == start[i as int]);
        ports[i].step_announce_age(step);
        i = i + 1;
    }
}

/// The inner state of a PTP instance: its data sets.
#[derive(Debug)]
pub struct PtpInstanceState {
    /// The default data set.
    pub default_ds: InternalDefaultDS,
    /// The current data set.
    pub current_ds: InternalCurrentDS,
    /// The parent data set.
    pub parent_ds: InternalParentDS,
    /// The path trace data set.
    pub path_trace_ds: PathTraceDS,
    /// The time properties data set.
    pub time_properties_ds: TimePropertiesDS,
}

impl PtpInstanceState {
    /// Runs the best master clock algorithm over all ports of the instance
    /// at `now`, and lets `bmca_interval` pass for them: every port takes
    /// the best announce message it received (see
    /// [`PortBmca::spec_local_best`]); the instance picks the best of those
    /// of the ports that take part ([`bmca_messages`], [`best_of`]); every
    /// port takes on the state recommended for it ([`state_after`]), one
    /// after the other, updating the data sets ([`data_sets_after`]); then
    /// the ports age ([`PortBmca::step_announce_age`]).
    pub fn bmca(&mut self, ports: &mut Vec<PortBmca>, bmca_interval: Duration, now: WireTimestamp)
        ensures
            ({
                let mid = old(ports)@.map_values(|p: PortBmca| with_local_best(p, now));
                let ebest = best_of(bmca_messages(mid));
                &&& final(ports)@.len() == old(ports)@.len()
                &&& forall|i: int|
                    0 <= i < old(ports)@.len() ==> {
                        let p = #[trigger] final(ports)@[i];
                        let q = old(ports)@[i];
                        &&& p.local_best == q.spec_local_best(now)
                        &&& p.port_state == state_after(old(self).default_ds, ebest, mid[i])
                        &&& p.multiport_disable == aged_disable(
                            q.multiport_disable,
                            bmca_interval,
                            q.announce_interval,
                        )
                        &&& p.master_only == q.master_only
                        &&& p.announce_interval == q.announce_interval
                        &&& list_view(p.bmca.foreign_master_list) == aged_masters(
                            q.list_after_best(now),
                            bmca_interval,
                            cutoff_bits(q.bmca.foreign_master_list.own_port_announce_interval),
                        )
                    }
                &&& (
                    final(self).current_ds,
                    final(self).parent_ds,
                    final(self).time_properties_ds,
                    path_trace_identities(final(self).path_trace_ds.list),
                ) == data_sets_after(
                    old(self).default_ds,
                    ebest,
                    mid,
                    (
                        old(self).current_ds,
                        old(self).parent_ds,
                        old(self).time_properties_ds,
                        path_trace_identities(old(self).path_trace_ds.list),
                    ),
                )
                &&& final(self).path_trace_ds.enable == old(self).path_trace_ds.enable
                &&& final(self).default_ds == old(self).default_ds
            }),
    {
        let ghost start = ports@;
        let ghost mid = start.map_values(|p: PortBmca| with_local_best(p, now));
        take_local_bests(ports, now);
        let ghost p1 = ports@;
        proof {
            assert forall|i: int| 0 <= i < p1.len() implies #[trigger] p1[i].spec_for_bmca()
                == mid[i].spec_for_bmca() by {
                assert(p1[i] == (PortBmca { local_best: start[i].spec_local_best(now), bmca: p1[i].bmca, ..start[i] }));
            }
            lemma_bmca_messages_same(p1, mid);
        }
        let ebest = best_of_instance(ports);
        proof {
            assert forall|i: int| 0 <= i < p1.len() implies #[trigger] port_recommendation(
                self.default_ds,
                ebest,
                p1[i],
            ) == port_recommendation(self.default_ds, ebest, mid[i]) by {
                assert(p1[i] == (PortBmca { local_best: start[i].spec_local_best(now), bmca: p1[i].bmca, ..start[i] }));
            }
            lemma_data_sets_same(
                self.default_ds,
                ebest,
                p1,
                mid,
                (
                    self.current_ds,
                    self.parent_ds,
                    self.time_properties_ds,
                    path_trace_identities(self.path_trace_ds.list),
                ),
            );
        }
        take_recommended_states(
            &self.default_ds,
            ebest,
            ports,
            &mut self.current_ds,
            &mut self.parent_ds,
            &mut self.time_properties_ds,
            &mut self.path_trace_ds,
        );
        let ghost p3 = ports@;
        step_ages(ports, bmca_interval);
        proof {
            assert forall|i: int| 0 <= i < start.len() implies {
                let p = #[trigger] ports@[i];
                let q = start[i];
                &&& p.local_best == q.spec_local_best(now)
                &&& p.port_state == state_after(self.default_ds, ebest, mid[i])
                &&& p.multiport_disable == aged_disable(
                    q.multiport_disable,
                    bmca_interval,
                    q.announce_interval,
                )
                &&& p.master_only == q.master_only
                &&& p.announce_interval == q.announce_interval
                &&& list_view(p.bmca.foreign_master_list) == aged_masters(
                    q.list_after_best(now),
                    bmca_interval,
                    cutoff_bits(q.bmca.foreign_master_list.own_port_announce_interval),
                )
            } by {
                assert(p1[i] == (PortBmca { local_best: start[i].spec_local_best(now), bmca: p1[i].bmca, ..start[i] }));
                assert(p3[i] == (PortBmca { port_state: state_after(self.default_ds, ebest, p1[i]), ..p1[i] }));
            }
        }
    }
}

} // verus!
