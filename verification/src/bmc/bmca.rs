//! Implementation of the best master clock algorithm [Bmca]

use vstd::prelude::*;

use core::cmp::Ordering;

use super::foreign_master::{
    aged_masters, cutoff_bits, list_view, registered_in, spec_register_announce_message, taken,
    ForeignAnnounceMessage, ForeignMasterList, MasterAnnouncement,
};
use super::dataset_comparison::{
    lemma_compare_antisymmetric, reversed_ordering, ComparisonDataset, DatasetOrdering,
};
use crate::{
    datastructures::{
        common::{PortIdentity, TimeInterval, WireTimestamp},
        datasets::InternalDefaultDS,
        messages::{AnnounceMessage, Header},
    },
    port::state::PortState,
    time::{received_at, receive_time, Duration},
};

verus! {

/// An announce message together with the time it was received and the
/// port that received it.
#[derive(Copy, Clone, Debug)]
pub struct BestAnnounceMessage {
    /// The announce message.
    pub message: AnnounceMessage,
    /// When the message was received.
    pub timestamp: WireTimestamp,
    /// The port that received the message.
    pub identity: PortIdentity,
}

/// The order of two timestamps: later is greater.
pub open spec fn timestamp_ordering(a: WireTimestamp, b: WireTimestamp) -> Ordering {
    if a.later_than(b) {
        Ordering::Greater
    } else if b.later_than(a) {
        Ordering::Less
    } else {
        Ordering::Equal
    }
}

impl BestAnnounceMessage {
    /// The dataset that the message describes, as seen by the port that
    /// received it.
    pub open spec fn dataset(self) -> ComparisonDataset {
        ComparisonDataset::spec_from_announce_message(self.message, self.identity)
    }

    /// The result of the data set comparison of two messages.
    pub open spec fn dataset_order(self, other: Self) -> DatasetOrdering {
        self.dataset().spec_compare(other.dataset())
    }

    /// The order of two messages: better datasets are greater, and between
    /// equally good datasets the newer message is greater.
    pub open spec fn order(self, other: Self) -> Ordering {
        let d = self.dataset_order(other).ordering();
        if d != Ordering::Equal {
            d
        } else {
            timestamp_ordering(self.timestamp, other.timestamp)
        }
    }

    /// Compares two messages: better datasets are greater, and newer
    /// messages break a tie.
    pub fn compare(&self, other: &Self) -> (r: Ordering)
        ensures
            r == self.order(*other),
    {
        // use the timestamp as a tie-break if needed (prefer newer messages)
        let tie_break = match self.timestamp.time_order(&other.timestamp) {
            1 => Ordering::Greater,
            0 => Ordering::Equal,
            _ => Ordering::Less,
        };
        match self.compare_dataset(other).as_ordering() {
            Ordering::Equal => tie_break,
            ordering => ordering,
        }
    }

    /// Compares the datasets that two messages describe.
    pub fn compare_dataset(&self, other: &Self) -> (r: DatasetOrdering)
        ensures
            r == self.dataset_order(*other),
    {
        let data1 = ComparisonDataset::from_announce_message(&self.message, &self.identity);
        let data2 = ComparisonDataset::from_announce_message(&other.message, &other.identity);

        data1.compare(&data2)
    }
}

/// Comparing two messages the other way around gives the reverse order.
pub proof fn lemma_order_antisymmetric(a: BestAnnounceMessage, b: BestAnnounceMessage)
    ensures
        b.order(a) == reversed_ordering(a.order(b)),
{
    lemma_compare_antisymmetric(a.dataset(), b.dataset());
}

/// The message that `Iterator::max_by` with [`BestAnnounceMessage::order`]
/// picks from `s`: going from first to last, a message replaces the best
/// so far unless the best so far is greater.
pub open spec fn best_of(s: Seq<BestAnnounceMessage>) -> Option<BestAnnounceMessage>
    decreases s.len(),
{
    if s.len() == 0 {
        None
    } else {
        match best_of(s.drop_last()) {
            None => Some(s.last()),
            Some(best) => if best.order(s.last()) == Ordering::Greater {
                Some(best)
            } else {
                Some(s.last())
            },
        }
    }
}

/// The best of some messages is one of them, and there is one exactly when
/// there are messages.
pub proof fn lemma_best_of_is_member(s: Seq<BestAnnounceMessage>)
    ensures
        best_of(s) is Some <==> s.len() > 0,
        best_of(s) matches Some(b) ==> s.contains(b),
    decreases s.len(),
{
    if s.len() > 0 {
        lemma_best_of_is_member(s.drop_last());
        if let Some(b) = best_of(s.drop_last()) {
            let i = choose|i: int| 0 <= i < s.drop_last().len() && s.drop_last()[i] == b;
            assert(s[i] == b);
        }
        assert(s[s.len() - 1] == s.last());
    }
}

/// The best of the messages is not beaten by the last message.
pub proof fn lemma_best_of_not_beaten_by_last(s: Seq<BestAnnounceMessage>)
    requires
        s.len() > 0,
    ensures
        best_of(s) matches Some(b) && s.last().order(b) != Ordering::Greater,
{
    lemma_best_of_is_member(s);
    match best_of(s.drop_last()) {
        None => {
            lemma_order_antisymmetric(s.last(), s.last());
        },
        Some(best) => {
            lemma_order_antisymmetric(best, s.last());
            lemma_order_antisymmetric(s.last(), s.last());
        },
    }
}

/// Where the order of the messages is transitive among them, the best one
/// is at least as good as every one of them. (The order is not transitive
/// in general: the data set comparison can tie two messages that a third
/// one lies between.)
pub proof fn lemma_best_of_is_maximal(s: Seq<BestAnnounceMessage>)
    requires
        forall|i: int, j: int, k: int|
            0 <= i < s.len() && 0 <= j < s.len() && 0 <= k < s.len() && #[trigger] s[i].order(s[j])
                != Ordering::Less && #[trigger] s[j].order(s[k]) != Ordering::Less ==> s[i].order(s[k])
                != Ordering::Less,
    ensures
        best_of(s) matches Some(b) ==> forall|i: int| 0 <= i < s.len() ==> b.order(#[trigger] s[i])
            != Ordering::Less,
    decreases s.len(),
{
    if s.len() > 0 {
        let t = s.drop_last();
        assert forall|i: int, j: int, k: int|
            0 <= i < t.len() && 0 <= j < t.len() && 0 <= k < t.len() && #[trigger] t[i].order(t[j])
                != Ordering::Less && #[trigger] t[j].order(t[k]) != Ordering::Less implies t[i].order(
            t[k],
        ) != Ordering::Less by {
            assert(t[i] == s[i] && t[j] == s[j] && t[k] == s[k]);
        }
        lemma_best_of_is_maximal(t);
        lemma_best_of_is_member(t);
        lemma_best_of_not_beaten_by_last(s);
        let last = s.last();
        lemma_order_antisymmetric(last, last);
        match best_of(t) {
            None => {
                assert forall|i: int| 0 <= i < s.len() implies last.order(#[trigger] s[i])
                    != Ordering::Less by {
                    assert(s[i] == last);
                }
            },
            Some(best) => {
                let j = choose|j: int| 0 <= j < t.len() && t[j] == best;
                assert(s[j] == best);
                lemma_order_antisymmetric(best, last);
                if best.order(last) == Ordering::Greater {
                    assert forall|i: int| 0 <= i < s.len() implies best.order(#[trigger] s[i])
                        != Ordering::Less by {
                        if i < t.len() {
                            assert(t[i] == s[i]);
                        } else {
                            assert(s[i] == last);
                        }
                    }
                } else {
                    let n = s.len() - 1;
                    assert(s[n] == last);
                    assert forall|i: int| 0 <= i < s.len() implies last.order(#[trigger] s[i])
                        != Ordering::Less by {
                        if i < t.len() {
                            assert(t[i] == s[i]);
                            assert(best.order(t[i]) != Ordering::Less);
                            assert(s[n].order(s[j]) != Ordering::Less);
                            assert(s[j].order(s[i]) != Ordering::Less);
                        } else {
                            assert(s[i] == last);
                        }
                    }
                }
            },
        }
    }
}

/// The state that the state decision algorithm recommends for a port
/// (IEEE1588-2019 section 9.3.3), with the data it is based on.
#[derive(Debug)]
pub enum RecommendedState {
    /// Master, as a clock of class 1 to 127 that is better than what its port
    /// received.
    M1(InternalDefaultDS),
    /// Master, as a clock that is better than the best the instance received.
    M2(InternalDefaultDS),
    /// Master, since the port received nothing better than the best the
    /// instance received elsewhere.
    M3(AnnounceMessage),
    /// Passive, as a clock of class 1 to 127 that is not better than what its
    /// port received.
    P1(AnnounceMessage),
    /// Passive, since the port received the best only by topology.
    P2(AnnounceMessage),
    /// Slave of the best master the instance received.
    S1(AnnounceMessage),
}

/// The object implementing the best master clock algorithm for one port:
/// the foreign masters that the port heard announce themselves.
///
/// Every master is acceptable to it.
pub struct Bmca {
    /// The foreign masters that the port heard.
    pub foreign_master_list: ForeignMasterList,
    /// The identity of the port.
    pub own_port_identity: PortIdentity,
}

impl Bmca {
    /// The algorithm for the port `own_port_identity`, which announces every
    /// `own_port_announce_interval`, before it heard any foreign master.
    pub fn new(own_port_announce_interval: TimeInterval, own_port_identity: PortIdentity) -> (r: Self)
        ensures
            list_view(r.foreign_master_list) == Seq::<super::foreign_master::MasterView>::empty(),
            r.foreign_master_list.own_port_announce_interval == own_port_announce_interval,
            r.foreign_master_list.own_port_identity == own_port_identity,
            r.own_port_identity == own_port_identity,
    {
        Bmca {
            foreign_master_list: ForeignMasterList::new(own_port_announce_interval, own_port_identity),
            own_port_identity,
        }
    }

    /// Registers a received announce message, just received, and tells
    /// whether it was taken into account: messages that the port itself sent
    /// are not.
    pub fn register_announce_message(&mut self, header: &Header, announce_message: &AnnounceMessage) -> (registered: bool)
        ensures
            registered == (announce_message.header.source_port_identity != old(self).own_port_identity),
            list_view(final(self).foreign_master_list) == if registered {
                spec_register_announce_message(
                    old(self).foreign_master_list,
                    *announce_message,
                    crate::time::Duration { bits: 0 },
                )
            } else {
                list_view(old(self).foreign_master_list)
            },
            final(self).own_port_identity == old(self).own_port_identity,
            final(self).foreign_master_list.own_port_identity == old(self).foreign_master_list.own_port_identity,
            final(self).foreign_master_list.own_port_announce_interval
                == old(self).foreign_master_list.own_port_announce_interval,
    {
        // Ignore messages coming from the same port
        if announce_message.header.source_port_identity.same_as(&self.own_port_identity) {
            false
        } else {
            self.foreign_master_list.register_announce_message(
                header,
                announce_message,
                crate::time::Duration::zero(),
            );
            true
        }
    }

    /// Lets time `step` pass for the foreign masters.
    pub fn step_age(&mut self, step: crate::time::Duration)
        ensures
            list_view(final(self).foreign_master_list) == aged_masters(
                list_view(old(self).foreign_master_list),
                step,
                cutoff_bits(old(self).foreign_master_list.own_port_announce_interval),
            ),
            final(self).own_port_identity == old(self).own_port_identity,
            final(self).foreign_master_list.own_port_identity == old(self).foreign_master_list.own_port_identity,
            final(self).foreign_master_list.own_port_announce_interval
                == old(self).foreign_master_list.own_port_announce_interval,
    {
        self.foreign_master_list.step_age(step);
    }
}

/// The candidates for the best announce message of the port `own` among
/// the announcements taken from its foreign masters: the version 2 announce
/// messages, received by the port at `now` less their age, each with its
/// age.
pub open spec fn port_candidates(
    msgs: Seq<ForeignAnnounceMessage>,
    now: WireTimestamp,
    own: PortIdentity,
) -> Seq<(BestAnnounceMessage, Duration)>
    decreases msgs.len(),
{
    if msgs.len() == 0 {
        Seq::empty()
    } else {
        let rest = port_candidates(msgs.drop_last(), now, own);
        let f = msgs.last();
        match f.message {
            MasterAnnouncement::PTPv2(m) => rest.push(
                (
                    BestAnnounceMessage {
                        message: m,
                        timestamp: received_at(now, f.age),
                        identity: own,
                    },
                    f.age,
                ),
            ),
            MasterAnnouncement::PTPv1(_) => rest,
        }
    }
}

/// Whether message `a` is better than message `b`, or as good and newer.
pub open spec fn beats(a: BestAnnounceMessage, b: BestAnnounceMessage) -> bool {
    a.order(b) == Ordering::Greater
}

/// Whether message `a` is better than message `b`, or as good and newer.
fn is_better(a: &BestAnnounceMessage, b: &BestAnnounceMessage) -> (r: bool)
    ensures
        r == beats(*a, *b),
{
    match a.compare(b) {
        Ordering::Greater => true,
        _ => false,
    }
}

/// The best of the candidates, with its age, as [`best_of`] picks it.
pub open spec fn best_candidate(s: Seq<(BestAnnounceMessage, Duration)>) -> Option<
    (BestAnnounceMessage, Duration),
>
    decreases s.len(),
{
    if s.len() == 0 {
        None
    } else {
        match best_candidate(s.drop_last()) {
            None => Some(s.last()),
            Some(best) => if beats(best.0, s.last().0) {
                Some(best)
            } else {
                Some(s.last())
            },
        }
    }
}

/// The best candidate is the message that [`best_of`] picks among the
/// candidates' messages.
pub proof fn lemma_best_candidate_is_best_of(s: Seq<(BestAnnounceMessage, Duration)>)
    ensures
        match best_candidate(s) {
            Some(b) => best_of(s.map_values(|c: (BestAnnounceMessage, Duration)| c.0)) == Some(b.0),
            None => best_of(s.map_values(|c: (BestAnnounceMessage, Duration)| c.0)) is None,
        },
    decreases s.len(),
{
    if s.len() > 0 {
        lemma_best_candidate_is_best_of(s.drop_last());
        assert(s.drop_last().map_values(|c: (BestAnnounceMessage, Duration)| c.0) =~= s.map_values(
            |c: (BestAnnounceMessage, Duration)| c.0,
        ).drop_last());
    }
}

impl Bmca {
    /// Takes the best announce message that the port received (its Erbest):
    /// the best of the qualified announcements of its foreign masters (see
    /// [`taken`] and [`port_candidates`]), which are all taken from the list.
    /// The best one is then registered again, with its age, unless the port
    /// itself sent it.
    pub fn take_best_port_announce_message(&mut self, current_time: WireTimestamp) -> (r: Option<
        BestAnnounceMessage,
    >)
        ensures
            ({
                let (rest, msgs) = taken(list_view(old(self).foreign_master_list));
                let best = best_candidate(
                    port_candidates(msgs, current_time, old(self).own_port_identity),
                );
                &&& r == match best {
                    Some(b) => Some(b.0),
                    None => None::<BestAnnounceMessage>,
                }
                &&& list_view(final(self).foreign_master_list) == match best {
                    Some(b) => if b.0.message.header.source_port_identity
                        != old(self).own_port_identity {
                        registered_in(
                            rest,
                            old(self).foreign_master_list.own_port_identity,
                            old(self).foreign_master_list.own_port_announce_interval,
                            b.0.message,
                            b.1,
                        )
                    } else {
                        rest
                    },
                    None => rest,
                }
            }),
            final(self).own_port_identity == old(self).own_port_identity,
            final(self).foreign_master_list.own_port_identity
                == old(self).foreign_master_list.own_port_identity,
            final(self).foreign_master_list.own_port_announce_interval
                == old(self).foreign_master_list.own_port_announce_interval,
    {
        let msgs = self.foreign_master_list.take_qualified_announce_messages();
        let mut best: Option<(BestAnnounceMessage, Duration)> = None;
        let mut i: usize = 0;
        while i < msgs.len()
            invariant
                i <= msgs@.len(),
                best == best_candidate(port_candidates(msgs@.take(i as int), current_time, self.own_port_identity)),
            decreases msgs@.len() - i,
        {
            proof {
                assert(msgs@.take(i + 1).drop_last() =~= msgs@.take(i as int));
            }
            let f = &msgs[i];
            match f.message {
                MasterAnnouncement::PTPv2(m) => {
                    let candidate = BestAnnounceMessage {
                        message: m,
                        timestamp: receive_time(current_time, f.age),
                        identity: self.own_port_identity,
                    };
                    let ghost before = port_candidates(msgs@.take(i as int), current_time, self.own_port_identity);
                    let ghost after = port_candidates(msgs@.take(i + 1), current_time, self.own_port_identity);
                    assert(after.drop_last() =~= before);
                    best = match best {
                        None => Some((candidate, f.age)),
                        Some(b) => if is_better(&b.0, &candidate) {
                            Some(b)
                        } else {
                            Some((candidate, f.age))
                        },
                    };
                },
                MasterAnnouncement::PTPv1(_) => {},
            }
            i = i + 1;
        }
        assert(msgs@.take(msgs@.len() as int) =~= msgs@);
        match best {
            Some(b) => {
                if !b.0.message.header.source_port_identity.same_as(&self.own_port_identity) {
                    self.foreign_master_list.register_announce_message(
                        &b.0.message.header,
                        &b.0.message,
                        b.1,
                    );
                }
                Some(b.0)
            },
            None => None,
        }
    }
}

/// The state decision algorithm (IEEE1588-2019 figure 33).
///
/// `own_data` is D0, `ebest` the best message the instance received,
/// `erbest` the best message the port received and `listening` whether the
/// port is listening. `None` means that the port keeps its state.
pub open spec fn recommended_state(
    own_data: InternalDefaultDS,
    ebest: Option<BestAnnounceMessage>,
    erbest: Option<BestAnnounceMessage>,
    listening: bool,
) -> Option<RecommendedState> {
    let d0 = ComparisonDataset::spec_from_own_data(own_data);
    if ebest is None && listening {
        None
    } else if 1 <= own_data.clock_quality.clock_class <= 127 {
        match erbest {
            None => Some(RecommendedState::M1(own_data)),
            Some(e) => if d0.spec_compare(e.dataset()).spec_is_better() {
                Some(RecommendedState::M1(own_data))
            } else {
                Some(RecommendedState::P1(e.message))
            },
        }
    } else {
        match ebest {
            None => Some(RecommendedState::M2(own_data)),
            Some(eb) => if d0.spec_compare(eb.dataset()).spec_is_better() {
                Some(RecommendedState::M2(own_data))
            } else {
                match erbest {
                    None => Some(RecommendedState::M3(eb.message)),
                    Some(er) => if eb.timestamp == er.timestamp {
                        Some(RecommendedState::S1(eb.message))
                    } else if eb.dataset().spec_compare(er.dataset()) is BetterByTopology {
                        Some(RecommendedState::P2(er.message))
                    } else {
                        Some(RecommendedState::M3(eb.message))
                    },
                }
            },
        }
    }
}

/// The state decision algorithm, case by case (IEEE1588-2019 figure 33).
/// D0 is the instance's own data set, Ebest the best message of the
/// instance, Erbest the best message of the port:
/// - a listening port that heard nothing keeps its state;
/// - a clock of class 1 to 127 is master (M1) when it is better than Erbest
///   or there is none, and passive (P1) with Erbest otherwise;
/// - any other clock is master (M2) when it is better than Ebest or there is
///   none;
/// - otherwise the port is slave of Ebest (S1) when Ebest is the port's own
///   Erbest; passive (P2) with Erbest when Ebest is better than Erbest only
///   by topology; and master (M3) with Ebest otherwise, also when the port
///   heard nothing.
pub proof fn lemma_state_decision(
    own_data: InternalDefaultDS,
    ebest: Option<BestAnnounceMessage>,
    erbest: Option<BestAnnounceMessage>,
    listening: bool,
)
    ensures
        ({
            let d0 = ComparisonDataset::spec_from_own_data(own_data);
            let r = recommended_state(own_data, ebest, erbest, listening);
            let low_class = 1 <= own_data.clock_quality.clock_class <= 127;
            &&& (ebest is None && listening) ==> r is None
            &&& (!(ebest is None && listening) && low_class) ==> match erbest {
                None => r == Some(RecommendedState::M1(own_data)),
                Some(e) => if d0.spec_compare(e.dataset()).spec_is_better() {
                    r == Some(RecommendedState::M1(own_data))
                } else {
                    r == Some(RecommendedState::P1(e.message))
                },
            }
            &&& (!(ebest is None && listening) && !low_class) ==> match ebest {
                None => r == Some(RecommendedState::M2(own_data)),
                Some(eb) => if d0.spec_compare(eb.dataset()).spec_is_better() {
                    r == Some(RecommendedState::M2(own_data))
                } else {
                    match erbest {
                        None => r == Some(RecommendedState::M3(eb.message)),
                        Some(er) => if eb.timestamp == er.timestamp {
                            r == Some(RecommendedState::S1(eb.message))
                        } else if eb.dataset().spec_compare(er.dataset())
                            == DatasetOrdering::BetterByTopology {
                            r == Some(RecommendedState::P2(er.message))
                        } else {
                            r == Some(RecommendedState::M3(eb.message))
                        },
                    }
                },
            }
        }),
{
}

/// Where each recommendation comes from: a port is only ever slave of the
/// best message of the instance, received on the port itself; passive
/// (P2) only with its own best message, when the best of the instance is
/// better than it by topology alone; passive (P1) only with its own best
/// message, as a clock of class 1 to 127 that is not better; and master
/// with its own data (M1, M2) only when it is at least as good as what it
/// is compared with.
pub proof fn lemma_recommendation_sources(
    own_data: InternalDefaultDS,
    ebest: Option<BestAnnounceMessage>,
    erbest: Option<BestAnnounceMessage>,
    listening: bool,
)
    ensures
        ({
            let d0 = ComparisonDataset::spec_from_own_data(own_data);
            let r = recommended_state(own_data, ebest, erbest, listening);
            &&& r matches Some(RecommendedState::S1(m)) ==> (ebest matches Some(eb) && erbest matches Some(
                er,
            ) && m == eb.message && eb.timestamp == er.timestamp)
            &&& r matches Some(RecommendedState::P2(m)) ==> (ebest matches Some(eb) && erbest matches Some(
                er,
            ) && m == er.message && eb.timestamp != er.timestamp && eb.dataset().spec_compare(
                er.dataset(),
            ) == DatasetOrdering::BetterByTopology)
            &&& r matches Some(RecommendedState::P1(m)) ==> (erbest matches Some(er) && m == er.message
                && !d0.spec_compare(er.dataset()).spec_is_better())
            &&& r matches Some(RecommendedState::M3(m)) ==> (ebest matches Some(eb) && m == eb.message
                && !d0.spec_compare(eb.dataset()).spec_is_better())
            &&& r matches Some(RecommendedState::M1(d)) ==> d == own_data
            &&& r matches Some(RecommendedState::M2(d)) ==> d == own_data
            &&& r is None ==> ebest is None && listening
        }),
{
}

/// A port whose best message is better than that of the instance by
/// topology only, from another path, goes passive with its own best
/// message: the segment already has a better path to the grandmaster.
pub proof fn lemma_worse_path_goes_passive(
    own_data: InternalDefaultDS,
    eb: BestAnnounceMessage,
    er: BestAnnounceMessage,
    listening: bool,
)
    requires
        !(1 <= own_data.clock_quality.clock_class <= 127),
        !ComparisonDataset::spec_from_own_data(own_data).spec_compare(eb.dataset()).spec_is_better(),
        eb.timestamp != er.timestamp,
        eb.dataset().spec_compare(er.dataset()) == DatasetOrdering::BetterByTopology,
    ensures
        recommended_state(own_data, Some(eb), Some(er), listening) == Some(
            RecommendedState::P2(er.message),
        ),
{
    lemma_state_decision(own_data, Some(eb), Some(er), listening);
}

/// A port whose own best message is the best of the instance follows its
/// sender, unless the instance is better or of class 1 to 127.
pub proof fn lemma_best_port_follows(own_data: InternalDefaultDS, eb: BestAnnounceMessage, listening: bool)
    requires
        !(1 <= own_data.clock_quality.clock_class <= 127),
        !ComparisonDataset::spec_from_own_data(own_data).spec_compare(eb.dataset()).spec_is_better(),
    ensures
        recommended_state(own_data, Some(eb), Some(eb), listening) == Some(
            RecommendedState::S1(eb.message),
        ),
{
    lemma_state_decision(own_data, Some(eb), Some(eb), listening);
}

/// The first `n` messages of `s`.
pub open spec fn first_n(s: Seq<BestAnnounceMessage>, n: usize) -> Seq<BestAnnounceMessage> {
    s.take(n as int)
}

impl Bmca {
    /// Finds the best announce message among the given ones, as
    /// `Iterator::max_by` with [`BestAnnounceMessage::compare`] does: of
    /// messages that are equally good, the last one is taken.
    pub fn find_best_announce_message(announce_messages: &[BestAnnounceMessage]) -> (r: Option<BestAnnounceMessage>)
        ensures
            r == best_of(announce_messages@),
    {
        let mut best: Option<BestAnnounceMessage> = None;
        let mut i: usize = 0;
        while i < announce_messages.len()
            invariant
                i <= announce_messages@.len(),
                best == best_of(first_n(announce_messages@, i)),
            decreases announce_messages@.len() - i,
        {
            let message = announce_messages[i];
            proof {
                assert(announce_messages@.take(i + 1).drop_last() =~= first_n(announce_messages@, i));
                assert(announce_messages@.take(i + 1).last() == message);
            }
            best = match best {
                None => Some(message),
                Some(b) => match b.compare(&message) {
                    Ordering::Greater => Some(b),
                    _ => Some(message),
                },
            };
            i = i + 1;
        }
        assert(first_n(announce_messages@, i) =~= announce_messages@);
        best
    }

    /// Calculates the recommended port state. This has to be run for every
    /// port. The PTP spec calls this the State Decision Algorithm.
    ///
    /// - `own_data`: Called 'D0' by the PTP spec. The DefaultDS data of our own
    ///   ptp instance.
    /// - `best_global_announce_message`: Called 'Ebest' by the PTP spec. This
    ///   is the best announce message and the identity of the port that
    ///   received it of all of the best port announce messages.
    /// - `best_port_announce_message`: Called 'Erbest' by the PTP spec. This is
    ///   the best announce message and the identity of the port that received
    ///   it of the port we are calculating the recommended state for.
    /// - `port_state`: The current state of the port we are doing the
    ///   calculation for.
    ///
    /// If None is returned, then the port should remain in the same state as it
    /// is now.
    pub fn calculate_recommended_state(
        own_data: &InternalDefaultDS,
        best_global_announce_message: Option<BestAnnounceMessage>,
        best_port_announce_message: Option<BestAnnounceMessage>,
        port_state: &PortState,
    ) -> (r: Option<RecommendedState>)
        ensures
            r == recommended_state(
                *own_data,
                best_global_announce_message,
                best_port_announce_message,
                *port_state is Listening,
            ),
    {
        let d0 = ComparisonDataset::from_own_data(own_data);
        let ebest = match best_global_announce_message {
            Some(best) => Some(ComparisonDataset::from_announce_message(&best.message, &best.identity)),
            None => None,
        };
        let erbest = match best_port_announce_message {
            Some(best) => Some(ComparisonDataset::from_announce_message(&best.message, &best.identity)),
            None => None,
        };

        if best_global_announce_message.is_none() && matches!(port_state, PortState::Listening) {
            return None;
        }

        if 1 <= own_data.clock_quality.clock_class && own_data.clock_quality.clock_class <= 127 {
            return match erbest {
                None => Some(RecommendedState::M1(*own_data)),
                Some(erbest) => {
                    if d0.compare(&erbest).is_better() {
                        Some(RecommendedState::M1(*own_data))
                    } else {
                        Some(RecommendedState::P1(best_port_announce_message.unwrap().message))
                    }
                },
            };
        }

        match &ebest {
            None => return Some(RecommendedState::M2(*own_data)),
            Some(ebest) => {
                if d0.compare(ebest).is_better() {
                    return Some(RecommendedState::M2(*own_data));
                }
            },
        }

        // If ebest was empty, then we would have returned in the previous step
        let best_global_announce_message = best_global_announce_message.unwrap();
        let ebest = ebest.unwrap();

        match erbest {
            None => Some(RecommendedState::M3(best_global_announce_message.message)),
            Some(erbest) => {
                let best_port_announce_message = best_port_announce_message.unwrap();

                if best_global_announce_message.timestamp.time_order(&best_port_announce_message.timestamp) == 0 {
                    Some(RecommendedState::S1(best_global_announce_message.message))
                } else if matches!(ebest.compare(&erbest), DatasetOrdering::BetterByTopology) {
                    Some(RecommendedState::P2(best_port_announce_message.message))
                } else {
                    Some(RecommendedState::M3(best_global_announce_message.message))
                }
            },
        }
    }
}

/// A port whose best message is the best message of the instance, received
/// at the same time, becomes a slave of its sender, unless the instance's
/// own clock is of class 1 to 127 or better than that message.
pub proof fn lemma_port_with_best_message_becomes_slave(
    own_data: InternalDefaultDS,
    best: BestAnnounceMessage,
    listening: bool,
)
    requires
        !(1 <= own_data.clock_quality.clock_class <= 127),
        !ComparisonDataset::spec_from_own_data(own_data).spec_compare(best.dataset()).spec_is_better(),
    ensures
        recommended_state(own_data, Some(best), Some(best), listening) == Some(
            RecommendedState::S1(best.message),
        ),
{
}

/// A listening port keeps its state while the instance has received no
/// announce message at all.
pub proof fn lemma_listening_without_messages(
    own_data: InternalDefaultDS,
    erbest: Option<BestAnnounceMessage>,
)
    ensures
        recommended_state(own_data, None, erbest, true) is None,
{
}

} // verus!
