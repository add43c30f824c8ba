//! The foreign masters that a port has heard announce themselves, and the
//! announcements it qualifies (IEEE1588-2019 section 9.3.2.4).

use vstd::prelude::*;

use arrayvec::ArrayVec;

use crate::datastructures::{
    common::{PortIdentity, TimeInterval},
    messages::{AnnounceMessage, Header},
    messages_v1,
};
use crate::time::Duration;

verus! {

/// The time window in which announce messages are valid, in announce
/// intervals of the port.
pub const FOREIGN_MASTER_TIME_WINDOW: u16 = 4;

/// The number of announce messages that a foreign master must have sent
/// within the time window to be qualified.
pub const FOREIGN_MASTER_THRESHOLD: usize = 2;

/// The maximum number of announce messages kept of a foreign master.
pub const MAX_ANNOUNCE_MESSAGES: usize = 8;

/// The maximum number of foreign masters kept at the same time.
pub const MAX_FOREIGN_MASTERS: usize = 8;

/// An announcement of a foreign master: a PTP version 1 sync message or a
/// PTP version 2 announce message.
#[derive(Copy, Clone, Debug, PartialEq, Eq)]
pub enum MasterAnnouncement {
    /// A PTP version 1 sync message, which also announces its sender.
    PTPv1(messages_v1::SyncMessage),
    /// A PTP version 2 announce message.
    PTPv2(AnnounceMessage),
}

impl MasterAnnouncement {
    /// The sequence id in the header of the announcing message.
    pub open spec fn spec_sequence_id(self) -> u16 {
        match self {
            MasterAnnouncement::PTPv2(message) => message.header.sequence_id,
            MasterAnnouncement::PTPv1(message) => message.header.sequence_id,
        }
    }

    /// The sequence id in the header of the announcing message.
    pub fn sequence_id(&self) -> (r: u16)
        ensures
            r == self.spec_sequence_id(),
    {
        match self {
            MasterAnnouncement::PTPv2(message) => message.header.sequence_id,
            MasterAnnouncement::PTPv1(message) => message.header.sequence_id,
        }
    }
}

/// An announcement together with the time since it was received.
#[derive(Copy, Clone, Debug, PartialEq, Eq)]
pub struct ForeignAnnounceMessage {
    /// The announcement.
    pub message: MasterAnnouncement,
    /// The time since the announcement was received.
    pub age: Duration,
}

/// The announcements held by an announce message list, in order.
pub uninterp spec fn announce_messages_of(v: ArrayVec<ForeignAnnounceMessage, MAX_ANNOUNCE_MESSAGES>) -> Seq<
    ForeignAnnounceMessage,
>;

/// The foreign masters held by a foreign master list, in order.
pub uninterp spec fn foreign_masters_of(v: ArrayVec<ForeignMaster, MAX_FOREIGN_MASTERS>) -> Seq<
    ForeignMaster,
>;

/// `ArrayVec::new`: an empty announce message list.
#[verifier::external_body]
fn messages_new() -> (r: ArrayVec<ForeignAnnounceMessage, MAX_ANNOUNCE_MESSAGES>)
    ensures
        announce_messages_of(r) == Seq::<ForeignAnnounceMessage>::empty(),
{
    ArrayVec::new()
}

/// `ArrayVec::len`: the number of announcements held, at most the capacity.
#[verifier::external_body]
fn messages_len(v: &ArrayVec<ForeignAnnounceMessage, MAX_ANNOUNCE_MESSAGES>) -> (r: usize)
    ensures
        r == announce_messages_of(*v).len(),
        r <= MAX_ANNOUNCE_MESSAGES,
{
    v.len()
}

/// Indexing (`v[i]`, through the slice that `ArrayVec` dereferences to): the
/// announcement at `i`.
#[verifier::external_body]
fn messages_get(v: &ArrayVec<ForeignAnnounceMessage, MAX_ANNOUNCE_MESSAGES>, i: usize) -> (r:
    ForeignAnnounceMessage)
    requires
        i < announce_messages_of(*v).len(),
    ensures
        r == announce_messages_of(*v)[i as int],
{
    v[i]
}

/// Assignment to `v[i]`, through the slice that `ArrayVec` dereferences to.
#[verifier::external_body]
fn messages_set(
    v: &mut ArrayVec<ForeignAnnounceMessage, MAX_ANNOUNCE_MESSAGES>,
    i: usize,
    x: ForeignAnnounceMessage,
)
    requires
        i < announce_messages_of(*old(v)).len(),
    ensures
        announce_messages_of(*final(v)) == announce_messages_of(*old(v)).update(i as int, x),
{
    v[i] = x;
}

/// `ArrayVec::push`: appends `x`. `push` panics on a full list, so the list
/// must not be full.
#[verifier::external_body]
fn messages_push(v: &mut ArrayVec<ForeignAnnounceMessage, MAX_ANNOUNCE_MESSAGES>, x: ForeignAnnounceMessage)
    requires
        announce_messages_of(*old(v)).len() < MAX_ANNOUNCE_MESSAGES,
    ensures
        announce_messages_of(*final(v)) == announce_messages_of(*old(v)).push(x),
{
    v.push(x)
}

/// `ArrayVec::remove`: takes out the announcement at `i`, shifting the ones
/// after it down. `remove` panics when `i` is out of bounds.
#[verifier::external_body]
fn messages_remove(v: &mut ArrayVec<ForeignAnnounceMessage, MAX_ANNOUNCE_MESSAGES>, i: usize) -> (r:
    ForeignAnnounceMessage)
    requires
        i < announce_messages_of(*old(v)).len(),
    ensures
        r == announce_messages_of(*old(v))[i as int],
        announce_messages_of(*final(v)) == announce_messages_of(*old(v)).remove(i as int),
{
    v.remove(i)
}

/// `ArrayVec::new`: an empty foreign master list.
#[verifier::external_body]
fn masters_new() -> (r: ArrayVec<ForeignMaster, MAX_FOREIGN_MASTERS>)
    ensures
        foreign_masters_of(r) == Seq::<ForeignMaster>::empty(),
{
    ArrayVec::new()
}

/// `ArrayVec::len`: the number of foreign masters held, at most the
/// capacity.
#[verifier::external_body]
fn masters_len(v: &ArrayVec<ForeignMaster, MAX_FOREIGN_MASTERS>) -> (r: usize)
    ensures
        r == foreign_masters_of(*v).len(),
        r <= MAX_FOREIGN_MASTERS,
{
    v.len()
}

/// Indexing (`&v[i]`, through the slice that `ArrayVec` dereferences to):
/// the foreign master at `i`.
#[verifier::external_body]
fn masters_get(v: &ArrayVec<ForeignMaster, MAX_FOREIGN_MASTERS>, i: usize) -> (r: &ForeignMaster)
    requires
        i < foreign_masters_of(*v).len(),
    ensures
        *r == foreign_masters_of(*v)[i as int],
{
    &v[i]
}

/// `core::mem::replace` on `v[i]`: takes the foreign master at `i` out and
/// leaves `placeholder` in its place.
#[verifier::external_body]
fn masters_take(v: &mut ArrayVec<ForeignMaster, MAX_FOREIGN_MASTERS>, i: usize, placeholder: ForeignMaster) -> (r:
    ForeignMaster)
    requires
        i < foreign_masters_of(*old(v)).len(),
    ensures
        r == foreign_masters_of(*old(v))[i as int],
        foreign_masters_of(*final(v)) == foreign_masters_of(*old(v)).update(i as int, placeholder),
{
    core::mem::replace(&mut v[i], placeholder)
}

/// Assignment to `v[i]`, through the slice that `ArrayVec` dereferences to.
#[verifier::external_body]
fn masters_set(v: &mut ArrayVec<ForeignMaster, MAX_FOREIGN_MASTERS>, i: usize, x: ForeignMaster)
    requires
        i < foreign_masters_of(*old(v)).len(),
    ensures
        foreign_masters_of(*final(v)) == foreign_masters_of(*old(v)).update(i as int, x),
{
    v[i] = x;
}

/// `ArrayVec::push`: appends `x`. `push` panics on a full list, so the list
/// must not be full.
#[verifier::external_body]
fn masters_push(v: &mut ArrayVec<ForeignMaster, MAX_FOREIGN_MASTERS>, x: ForeignMaster)
    requires
        foreign_masters_of(*old(v)).len() < MAX_FOREIGN_MASTERS,
    ensures
        foreign_masters_of(*final(v)) == foreign_masters_of(*old(v)).push(x),
{
    v.push(x)
}

/// `ArrayVec::remove`: drops the foreign master at `i`, shifting the ones
/// after it down. `remove` panics when `i` is out of bounds.
#[verifier::external_body]
fn masters_remove(v: &mut ArrayVec<ForeignMaster, MAX_FOREIGN_MASTERS>, i: usize)
    requires
        i < foreign_masters_of(*old(v)).len(),
    ensures
        foreign_masters_of(*final(v)) == foreign_masters_of(*old(v)).remove(i as int),
{
    v.remove(i);
}

/// A foreign master and the announcements it sent within the time window.
#[derive(Debug)]
pub struct ForeignMaster {
    /// The port that sends the announcements.
    pub foreign_master_port_identity: PortIdentity,
    /// The announcements, oldest first.
    pub announce_messages: ArrayVec<ForeignAnnounceMessage, MAX_ANNOUNCE_MESSAGES>,
}

/// A foreign master as its port and its announcements.
pub open spec fn master_view(fm: ForeignMaster) -> (PortIdentity, Seq<ForeignAnnounceMessage>) {
    (fm.foreign_master_port_identity, announce_messages_of(fm.announce_messages))
}

/// The announcements that are younger than `cutoff`, in order.
pub open spec fn purged(s: Seq<ForeignAnnounceMessage>, cutoff: i128) -> Seq<ForeignAnnounceMessage>
    decreases s.len(),
{
    if s.len() == 0 {
        s
    } else {
        let rest = purged(s.drop_first(), cutoff);
        if s[0].age.bits < cutoff {
            seq![s[0]] + rest
        } else {
            rest
        }
    }
}

/// The announcements after time `step` has passed: each is older by `step`.
pub open spec fn aged(s: Seq<ForeignAnnounceMessage>, step: Duration) -> Seq<ForeignAnnounceMessage> {
    s.map_values(
        |m: ForeignAnnounceMessage|
            ForeignAnnounceMessage { age: Duration { bits: m.age.bits.wrapping_add(step.bits) }, ..m },
    )
}

/// The bits of the time window of announcements, for a port that announces
/// every `interval`.
pub open spec fn cutoff_bits(interval: TimeInterval) -> i128 {
    (interval.bits() * 0x1_0000 * FOREIGN_MASTER_TIME_WINDOW) as i128
}

/// The announcements of a foreign master after a new one: the ones outside
/// the time window are dropped, and when the list is full the oldest makes
/// room.
pub open spec fn registered(s: Seq<ForeignAnnounceMessage>, cutoff: i128, new: ForeignAnnounceMessage) -> Seq<
    ForeignAnnounceMessage,
> {
    let p = purged(s, cutoff);
    if p.len() < MAX_ANNOUNCE_MESSAGES {
        p.push(new)
    } else {
        p.drop_first().push(new)
    }
}

/// Purging keeps at most the announcements it had.
pub proof fn lemma_purged_len(s: Seq<ForeignAnnounceMessage>, cutoff: i128)
    ensures
        purged(s, cutoff).len() <= s.len(),
    decreases s.len(),
{
    if s.len() > 0 {
        lemma_purged_len(s.drop_first(), cutoff);
    }
}

/// Removes the announcements of the list that are not younger than `cutoff`.
fn purge_messages(v: &mut ArrayVec<ForeignAnnounceMessage, MAX_ANNOUNCE_MESSAGES>, cutoff: Duration)
    ensures
        announce_messages_of(*final(v)) == purged(announce_messages_of(*old(v)), cutoff.bits),
{
    let ghost s = announce_messages_of(*v);
    let mut i = messages_len(v);
    assert(s.skip(i as int) =~= Seq::<ForeignAnnounceMessage>::empty());
    assert(s.take(i as int) =~= s);
    while i > 0
        invariant
            i <= s.len(),
            announce_messages_of(*v) == s.take(i as int) + purged(s.skip(i as int), cutoff.bits),
        decreases i,
    {
        i = i - 1;
        assert(s.skip(i as int).drop_first() =~= s.skip(i + 1));
        assert(s.skip(i as int)[0] == s[i as int]);
        let ghost cur = announce_messages_of(*v);
        assert(cur[i as int] == s[i as int]);
        let m = messages_get(v, i);
        if m.age.bits < cutoff.bits {
            assert(s.take(i + 1) + purged(s.skip(i + 1), cutoff.bits) =~= s.take(i as int) + (seq![
                s[i as int],
            ] + purged(s.skip(i + 1), cutoff.bits)));
        } else {
            messages_remove(v, i);
            assert(cur.remove(i as int) =~= s.take(i as int) + purged(s.skip(i + 1), cutoff.bits));
        }
    }
    assert(s.take(0) + purged(s.skip(0), cutoff.bits) =~= purged(s, cutoff.bits));
}

/// Makes every announcement of the list older by `step`.
fn age_messages(v: &mut ArrayVec<ForeignAnnounceMessage, MAX_ANNOUNCE_MESSAGES>, step: Duration)
    ensures
        announce_messages_of(*final(v)) == aged(announce_messages_of(*old(v)), step),
{
    let ghost s = announce_messages_of(*v);
    let n = messages_len(v);
    let mut i: usize = 0;
    while i < n
        invariant
            n == s.len(),
            i <= n,
            announce_messages_of(*v).len() == n,
            forall|j: int| 0 <= j < i ==> announce_messages_of(*v)[j] == aged(s, step)[j],
            forall|j: int| i <= j < n ==> announce_messages_of(*v)[j] == s[j],
        decreases n - i,
    {
        let m = messages_get(v, i);
        messages_set(
            v,
            i,
            ForeignAnnounceMessage { age: Duration { bits: m.age.bits.wrapping_add(step.bits) }, ..m },
        );
        i = i + 1;
    }
    assert(announce_messages_of(*v) =~= aged(s, step));
}

/// The time window of announcements, for a port that announces every
/// `interval`.
fn cutoff(interval: &TimeInterval) -> (r: Duration)
    ensures
        r.bits == cutoff_bits(*interval),
{
    let d = Duration::from_time_interval(interval);
    Duration { bits: d.bits * 4 }
}

impl ForeignMaster {
    /// A foreign master that has sent `announce_message`, just received.
    pub fn new(_header: Header, announce_message: AnnounceMessage) -> (r: Self)
        ensures
            master_view(r) == (
                announce_message.header.source_port_identity,
                seq![
                    ForeignAnnounceMessage {
                        message: MasterAnnouncement::PTPv2(announce_message),
                        age: Duration { bits: 0 },
                    },
                ],
            ),
    {
        let message = ForeignAnnounceMessage {
            message: MasterAnnouncement::PTPv2(announce_message),
            age: Duration::zero(),
        };
        let mut messages = messages_new();
        messages_push(&mut messages, message);
        assert(Seq::<ForeignAnnounceMessage>::empty().push(message) =~= seq![message]);
        ForeignMaster {
            foreign_master_port_identity: announce_message.header.source_port_identity,
            announce_messages: messages,
        }
    }

    /// Removes the announcements that fall outside the time window, and
    /// tells whether none is left.
    fn purge_old_messages(&mut self, announce_interval: &TimeInterval) -> (empty: bool)
        ensures
            final(self).foreign_master_port_identity == old(self).foreign_master_port_identity,
            announce_messages_of(final(self).announce_messages) == purged(
                announce_messages_of(old(self).announce_messages),
                cutoff_bits(*announce_interval),
            ),
            empty == (announce_messages_of(final(self).announce_messages).len() == 0),
    {
        let c = cutoff(announce_interval);
        purge_messages(&mut self.announce_messages, c);
        messages_len(&self.announce_messages) == 0
    }

    /// Adds an announcement of this foreign master, received `age` ago.
    fn register_announce_message(
        &mut self,
        announce_message: AnnounceMessage,
        announce_interval: &TimeInterval,
        age: Duration,
    )
        ensures
            final(self).foreign_master_port_identity == old(self).foreign_master_port_identity,
            announce_messages_of(final(self).announce_messages) == registered(
                announce_messages_of(old(self).announce_messages),
                cutoff_bits(*announce_interval),
                ForeignAnnounceMessage { message: MasterAnnouncement::PTPv2(announce_message), age },
            ),
    {
        self.purge_old_messages(announce_interval);
        let new_message = ForeignAnnounceMessage { message: MasterAnnouncement::PTPv2(announce_message), age };
        // Add the new message; when the list is full, the oldest makes room
        if messages_len(&self.announce_messages) >= MAX_ANNOUNCE_MESSAGES {
            let ghost p = announce_messages_of(self.announce_messages);
            messages_remove(&mut self.announce_messages, 0);
            assert(p.remove(0) =~= p.drop_first());
        }
        messages_push(&mut self.announce_messages, new_message);
    }

    /// Makes the announcements older by `step`, removes the ones that fall
    /// outside the time window, and tells whether none is left.
    fn step_age(&mut self, step: Duration, announce_interval: &TimeInterval) -> (empty: bool)
        ensures
            final(self).foreign_master_port_identity == old(self).foreign_master_port_identity,
            announce_messages_of(final(self).announce_messages) == purged(
                aged(announce_messages_of(old(self).announce_messages), step),
                cutoff_bits(*announce_interval),
            ),
            empty == (announce_messages_of(final(self).announce_messages).len() == 0),
    {
        age_messages(&mut self.announce_messages, step);
        self.purge_old_messages(announce_interval)
    }
}

/// A foreign master as its port and its announcements.
pub type MasterView = (PortIdentity, Seq<ForeignAnnounceMessage>);

/// The list of foreign masters that a port has heard, with the port's own
/// identity and announce interval.
#[derive(Debug)]
pub struct ForeignMasterList {
    /// The foreign masters, in the order they were first heard.
    pub foreign_masters: ArrayVec<ForeignMaster, MAX_FOREIGN_MASTERS>,
    /// The announce interval of the port.
    pub own_port_announce_interval: TimeInterval,
    /// The identity of the port.
    pub own_port_identity: PortIdentity,
}

/// The foreign masters of a list, each as its port and its announcements.
pub open spec fn list_view(l: ForeignMasterList) -> Seq<MasterView> {
    foreign_masters_of(l.foreign_masters).map_values(|fm: ForeignMaster| master_view(fm))
}

/// The position of the first foreign master with port `id`, if any.
pub open spec fn find_master(s: Seq<MasterView>, id: PortIdentity) -> Option<int>
    decreases s.len(),
{
    if s.len() == 0 {
        None
    } else if s[0].0 == id {
        Some(0)
    } else {
        match find_master(s.drop_first(), id) {
            Some(k) => Some(k + 1),
            None => None,
        }
    }
}

/// Whether an announce message is qualified to be kept (IEEE1588-2019
/// section 9.3.2.5): it comes from another instance, it is newer than the
/// last one kept of its sender (allowing the sequence id to roll over), and
/// its grandmaster is fewer than 255 steps away.
pub open spec fn announce_qualified(l: ForeignMasterList, msg: AnnounceMessage) -> bool {
    qualified_in(list_view(l), l.own_port_identity, msg)
}

/// Whether an announce message is qualified to be kept by the port `own`
/// whose foreign masters are `v` (see [`announce_qualified`]).
pub open spec fn qualified_in(v: Seq<MasterView>, own: PortIdentity, msg: AnnounceMessage) -> bool {
    let src = msg.header.source_port_identity;
    &&& src.clock_identity != own.clock_identity
    &&& match find_master(v, src) {
        Some(k) => v[k].1.len() > 0 ==> msg.header.sequence_id.wrapping_sub(
            v[k].1.last().message.spec_sequence_id(),
        ) < 0x7fff,
        None => true,
    }
    &&& msg.steps_removed < 255
}

/// The foreign masters after an announce message, received `age` ago: a
/// qualified message is added to its sender, or starts a new foreign master
/// when there is room.
pub open spec fn spec_register_announce_message(l: ForeignMasterList, msg: AnnounceMessage, age: Duration) -> Seq<
    MasterView,
> {
    registered_in(list_view(l), l.own_port_identity, l.own_port_announce_interval, msg, age)
}

/// The foreign masters `v` of the port `own`, which announces every
/// `interval`, after an announce message received `age` ago (see
/// [`spec_register_announce_message`]).
pub open spec fn registered_in(
    v: Seq<MasterView>,
    own: PortIdentity,
    interval: TimeInterval,
    msg: AnnounceMessage,
    age: Duration,
) -> Seq<MasterView> {
    let src = msg.header.source_port_identity;
    if !qualified_in(v, own, msg) {
        v
    } else {
        match find_master(v, src) {
            Some(k) => v.update(
                k,
                (
                    v[k].0,
                    registered(
                        v[k].1,
                        cutoff_bits(interval),
                        ForeignAnnounceMessage { message: MasterAnnouncement::PTPv2(msg), age },
                    ),
                ),
            ),
            None => if v.len() < MAX_FOREIGN_MASTERS {
                v.push(
                    (
                        src,
                        seq![
                            ForeignAnnounceMessage {
                                message: MasterAnnouncement::PTPv2(msg),
                                age: Duration { bits: 0 },
                            },
                        ],
                    ),
                )
            } else {
                v
            },
        }
    }
}

/// The foreign masters after time `step` has passed: their announcements
/// age, the ones outside the time window are dropped, and foreign masters
/// with none left are dropped.
pub open spec fn aged_masters(s: Seq<MasterView>, step: Duration, cutoff: i128) -> Seq<MasterView>
    decreases s.len(),
{
    if s.len() == 0 {
        s
    } else {
        let f = (s[0].0, purged(aged(s[0].1, step), cutoff));
        let rest = aged_masters(s.drop_first(), step, cutoff);
        if f.1.len() == 0 {
            rest
        } else {
            seq![f] + rest
        }
    }
}

/// The foreign masters after their qualified announcements are taken, and
/// those announcements: of every foreign master with at least
/// [`FOREIGN_MASTER_THRESHOLD`] announcements, the most recent one, the
/// last foreign master first.
pub open spec fn taken(s: Seq<MasterView>) -> (Seq<MasterView>, Seq<ForeignAnnounceMessage>)
    decreases s.len(),
{
    if s.len() == 0 {
        (s, Seq::empty())
    } else {
        let (rest, out) = taken(s.drop_first());
        let f = s[0];
        if f.1.len() >= FOREIGN_MASTER_THRESHOLD {
            (seq![(f.0, f.1.drop_last())] + rest, out.push(f.1.last()))
        } else {
            (seq![f] + rest, out)
        }
    }
}

/// The first foreign master with port `id` is the first one, past those
/// that have another port.
proof fn lemma_find_master(s: Seq<MasterView>, id: PortIdentity, i: int)
    requires
        0 <= i <= s.len(),
        forall|j: int| 0 <= j < i ==> s[j].0 != id,
    ensures
        i < s.len() && s[i].0 == id ==> find_master(s, id) == Some(i),
        i == s.len() ==> find_master(s, id) is None,
    decreases i,
{
    if i > 0 {
        lemma_find_master(s.drop_first(), id, i - 1);
    }
}

/// A found foreign master has the port that was looked for.
proof fn lemma_find_master_found(s: Seq<MasterView>, id: PortIdentity)
    ensures
        find_master(s, id) matches Some(k) ==> 0 <= k < s.len() && s[k].0 == id,
    decreases s.len(),
{
    if s.len() > 0 {
        lemma_find_master_found(s.drop_first(), id);
    }
}

/// An empty foreign master, to stand in while one is taken out.
fn placeholder() -> (r: ForeignMaster) {
    ForeignMaster { foreign_master_port_identity: PortIdentity::default(), announce_messages: messages_new() }
}

impl ForeignMasterList {
    /// An empty list for the port `own_port_identity`, which announces every
    /// `own_port_announce_interval`.
    pub fn new(own_port_announce_interval: TimeInterval, own_port_identity: PortIdentity) -> (r: Self)
        ensures
            list_view(r) == Seq::<MasterView>::empty(),
            r.own_port_announce_interval == own_port_announce_interval,
            r.own_port_identity == own_port_identity,
    {
        let r = Self { foreign_masters: masters_new(), own_port_announce_interval, own_port_identity };
        assert(list_view(r) =~= Seq::<MasterView>::empty());
        r
    }

    /// The position of the first foreign master with port `id`, if any.
    fn find(&self, id: &PortIdentity) -> (r: Option<usize>)
        ensures
            r matches Some(k) ==> find_master(list_view(*self), *id) == Some(k as int),
            r is None ==> find_master(list_view(*self), *id) is None,
    {
        let ghost v = list_view(*self);
        let n = masters_len(&self.foreign_masters);
        let mut i: usize = 0;
        while i < n
            invariant
                v == list_view(*self),
                n == v.len(),
                i <= n,
                forall|j: int| 0 <= j < i ==> v[j].0 != *id,
            decreases n - i,
        {
            let fm = masters_get(&self.foreign_masters, i);
            assert(v[i as int] == master_view(*fm));
            if fm.foreign_master_port_identity.same_as(id) {
                proof {
                    lemma_find_master(v, *id, i as int);
                }
                return Some(i);
            }
            i = i + 1;
        }
        proof {
            lemma_find_master(v, *id, i as int);
        }
        None
    }

    /// Whether an announce message is qualified to be kept.
    fn is_announce_message_qualified(&self, announce_message: &AnnounceMessage) -> (r: bool)
        ensures
            r == announce_qualified(*self, *announce_message),
    {
        let source_identity = announce_message.header.source_port_identity;
        // 1. The message must not come from our own instance, which has only
        // one clock.
        if source_identity.clock_identity.same_as(&self.own_port_identity.clock_identity) {
            return false;
        }
        // 2. The message must be newer than the ones kept of its sender,
        // allowing for the sequence id to roll over.
        let ghost v = list_view(*self);
        proof {
            lemma_find_master_found(v, source_identity);
        }
        match self.find(&source_identity) {
            Some(k) => {
                let fm = masters_get(&self.foreign_masters, k);
                assert(v[k as int] == master_view(*fm));
                let len = messages_len(&fm.announce_messages);
                if len > 0 {
                    let last = messages_get(&fm.announce_messages, len - 1);
                    let last_sequence_id = last.message.sequence_id();
                    if announce_message.header.sequence_id.wrapping_sub(last_sequence_id) >= u16::MAX
                        / 2 {
                        return false;
                    }
                }
            },
            None => {},
        }
        // 3. The grandmaster must be fewer than 255 steps away.
        if announce_message.steps_removed >= 255 {
            return false;
        }
        true
    }

    /// Registers an announce message received `age` ago; see
    /// [`spec_register_announce_message`].
    pub fn register_announce_message(&mut self, _header: &Header, announce_message: &AnnounceMessage, age: Duration)
        ensures
            list_view(*final(self)) == spec_register_announce_message(*old(self), *announce_message, age),
            final(self).own_port_announce_interval == old(self).own_port_announce_interval,
            final(self).own_port_identity == old(self).own_port_identity,
    {
        if !self.is_announce_message_qualified(announce_message) {
            return;
        }
        let ghost v = list_view(*self);
        let source_identity = announce_message.header.source_port_identity;
        proof {
            lemma_find_master_found(v, source_identity);
        }
        match self.find(&source_identity) {
            Some(k) => {
                let ghost before = foreign_masters_of(self.foreign_masters);
                let mut fm = masters_take(&mut self.foreign_masters, k, placeholder());
                assert(v[k as int] == master_view(fm));
                fm.register_announce_message(*announce_message, &self.own_port_announce_interval, age);
                let ghost fm_view = master_view(fm);
                masters_set(&mut self.foreign_masters, k, fm);
                assert(foreign_masters_of(self.foreign_masters) =~= before.update(k as int, fm));
                assert(list_view(*self) =~= v.update(k as int, fm_view));
            },
            None => {
                if masters_len(&self.foreign_masters) < MAX_FOREIGN_MASTERS {
                    let ghost before = foreign_masters_of(self.foreign_masters);
                    let fm = ForeignMaster::new(*_header, *announce_message);
                    let ghost fm_view = master_view(fm);
                    masters_push(&mut self.foreign_masters, fm);
                    assert(list_view(*self) =~= v.push(fm_view));
                }
            },
        }
    }

    /// Lets time `step` pass; see [`aged_masters`].
    pub fn step_age(&mut self, step: Duration)
        ensures
            list_view(*final(self)) == aged_masters(
                list_view(*old(self)),
                step,
                cutoff_bits(old(self).own_port_announce_interval),
            ),
            final(self).own_port_announce_interval == old(self).own_port_announce_interval,
            final(self).own_port_identity == old(self).own_port_identity,
    {
        let ghost v = list_view(*self);
        let ghost c = cutoff_bits(self.own_port_announce_interval);
        let mut i = masters_len(&self.foreign_masters);
        assert(v.skip(i as int) =~= Seq::<MasterView>::empty());
        assert(v.take(i as int) =~= v);
        while i > 0
            invariant
                i <= v.len(),
                c == cutoff_bits(self.own_port_announce_interval),
                self.own_port_announce_interval == old(self).own_port_announce_interval,
                self.own_port_identity == old(self).own_port_identity,
                list_view(*self) == v.take(i as int) + aged_masters(v.skip(i as int), step, c),
            decreases i,
        {
            i = i - 1;
            let ghost before = foreign_masters_of(self.foreign_masters);
            let ghost cur = list_view(*self);
            assert(cur.len() == before.len());
            assert(cur.len() > i);
            assert(cur[i as int] == v[i as int]);
            assert(cur[i as int] == master_view(before[i as int]));
            assert(v.skip(i as int).drop_first() =~= v.skip(i + 1));
            assert(v.skip(i as int)[0] == v[i as int]);
            let mut fm = masters_take(&mut self.foreign_masters, i, placeholder());
            assert(master_view(fm) == v[i as int]);
            let empty = fm.step_age(step, &self.own_port_announce_interval);
            let ghost fm_view = master_view(fm);
            let ghost tail = aged_masters(v.skip(i + 1), step, c);
            let ghost f = (v[i as int].0, purged(aged(v[i as int].1, step), c));
            assert(fm_view == f);
            assert(cur =~= v.take(i + 1) + tail);
            assert(aged_masters(v.skip(i as int), step, c) == if f.1.len() == 0 {
                tail
            } else {
                seq![f] + tail
            });
            if empty {
                let ghost after_take = foreign_masters_of(self.foreign_masters);
                masters_remove(&mut self.foreign_masters, i);
                assert(after_take.remove(i as int) =~= before.remove(i as int));
                assert(list_view(*self) =~= cur.remove(i as int));
                assert(list_view(*self) =~= v.take(i as int) + aged_masters(v.skip(i as int), step, c));
            } else {
                masters_set(&mut self.foreign_masters, i, fm);
                assert(foreign_masters_of(self.foreign_masters) =~= before.update(i as int, fm));
                assert(list_view(*self) =~= cur.update(i as int, fm_view));
                assert(list_view(*self) =~= v.take(i as int) + aged_masters(v.skip(i as int), step, c));
            }
        }
        assert(v.take(0) + aged_masters(v.skip(0), step, c) =~= aged_masters(v, step, c));
    }

    /// Takes the qualified announce message of every foreign master that
    /// has one; see [`taken`].
    pub fn take_qualified_announce_messages(&mut self) -> (r: Vec<ForeignAnnounceMessage>)
        ensures
            (list_view(*final(self)), r@) == taken(list_view(*old(self))),
            final(self).own_port_announce_interval == old(self).own_port_announce_interval,
            final(self).own_port_identity == old(self).own_port_identity,
    {
        let ghost v = list_view(*self);
        let mut qualified: Vec<ForeignAnnounceMessage> = Vec::new();
        let mut i = masters_len(&self.foreign_masters);
        assert(v.skip(i as int) =~= Seq::<MasterView>::empty());
        assert(v.take(i as int) =~= v);
        while i > 0
            invariant
                i <= v.len(),
                self.own_port_announce_interval == old(self).own_port_announce_interval,
                self.own_port_identity == old(self).own_port_identity,
                list_view(*self) == v.take(i as int) + taken(v.skip(i as int)).0,
                qualified@ == taken(v.skip(i as int)).1,
            decreases i,
        {
            i = i - 1;
            let ghost before = foreign_masters_of(self.foreign_masters);
            let ghost cur = list_view(*self);
            assert(cur.len() == before.len());
            assert(cur.len() > i);
            assert(cur[i as int] == v[i as int]);
            assert(cur[i as int] == master_view(before[i as int]));
            assert(v.skip(i as int).drop_first() =~= v.skip(i + 1));
            assert(v.skip(i as int)[0] == v[i as int]);
            let fm_ref = masters_get(&self.foreign_masters, i);
            assert(master_view(*fm_ref) == v[i as int]);
            let len = messages_len(&fm_ref.announce_messages);
            if len >= FOREIGN_MASTER_THRESHOLD {
                let mut fm = masters_take(&mut self.foreign_masters, i, placeholder());
                let ghost msgs = announce_messages_of(fm.announce_messages);
                let last = messages_remove(&mut fm.announce_messages, len - 1);
                assert(msgs.remove(len - 1) =~= msgs.drop_last());
                let ghost fm_view = master_view(fm);
                masters_set(&mut self.foreign_masters, i, fm);
                qualified.push(last);
                let ghost rest = taken(v.skip(i + 1)).0;
                assert(fm_view == (v[i as int].0, v[i as int].1.drop_last()));
                assert(cur =~= v.take(i + 1) + rest);
                assert(taken(v.skip(i as int)).0 == seq![(v[i as int].0, v[i as int].1.drop_last())] + rest);
                assert(foreign_masters_of(self.foreign_masters) =~= before.update(i as int, fm));
                assert(list_view(*self) =~= cur.update(i as int, fm_view));
                assert(list_view(*self) =~= v.take(i as int) + taken(v.skip(i as int)).0);
            } else {
                assert(list_view(*self) =~= v.take(i as int) + taken(v.skip(i as int)).0);
            }
        }
        assert(v.take(0) + taken(v.skip(0)).0 =~= taken(v).0);
        assert(v.skip(0) =~= v);
        qualified
    }
}

/// Every announcement left after a purge is younger than the cutoff.
pub proof fn lemma_purged_young(s: Seq<ForeignAnnounceMessage>, cutoff: i128)
    ensures
        forall|j: int| 0 <= j < purged(s, cutoff).len() ==> #[trigger] purged(s, cutoff)[j].age.bits < cutoff,
    decreases s.len(),
{
    if s.len() > 0 {
        lemma_purged_young(s.drop_first(), cutoff);
        let rest = purged(s.drop_first(), cutoff);
        if s[0].age.bits < cutoff {
            assert forall|j: int| 0 <= j < purged(s, cutoff).len() implies #[trigger] purged(s, cutoff)[j].age.bits < cutoff by {
                if j > 0 {
                    assert(purged(s, cutoff)[j] == rest[j - 1]);
                }
            }
        }
    }
}

/// After time passes, every foreign master left has an announcement, and
/// every announcement left is within the time window.
pub proof fn lemma_aged_masters_within_window(s: Seq<MasterView>, step: Duration, cutoff: i128)
    ensures
        forall|k: int| 0 <= k < aged_masters(s, step, cutoff).len() ==> {
            let m = #[trigger] aged_masters(s, step, cutoff)[k];
            &&& m.1.len() > 0
            &&& forall|j: int| 0 <= j < m.1.len() ==> m.1[j].age.bits < cutoff
        },
    decreases s.len(),
{
    if s.len() > 0 {
        lemma_aged_masters_within_window(s.drop_first(), step, cutoff);
        lemma_purged_young(aged(s[0].1, step), cutoff);
        let rest = aged_masters(s.drop_first(), step, cutoff);
        let f = (s[0].0, purged(aged(s[0].1, step), cutoff));
        if f.1.len() > 0 {
            assert forall|k: int| 0 <= k < aged_masters(s, step, cutoff).len() implies {
                let m = #[trigger] aged_masters(s, step, cutoff)[k];
                &&& m.1.len() > 0
                &&& forall|j: int| 0 <= j < m.1.len() ==> m.1[j].age.bits < cutoff
            } by {
                if k > 0 {
                    assert(aged_masters(s, step, cutoff)[k] == rest[k - 1]);
                } else {
                    assert(aged_masters(s, step, cutoff)[0] == f);
                }
            }
        }
    }
}

/// A message that is not qualified leaves the foreign masters as they were.
pub proof fn lemma_unqualified_changes_nothing(l: ForeignMasterList, msg: AnnounceMessage, age: Duration)
    requires
        !announce_qualified(l, msg),
    ensures
        spec_register_announce_message(l, msg, age) == list_view(l),
{
}

/// Announce messages that the port must not keep leave its foreign masters
/// as they were: those sent by its own instance, and those of a grandmaster
/// 255 or more steps away.
pub proof fn lemma_own_and_distant_announcements_ignored(
    v: Seq<MasterView>,
    own: PortIdentity,
    interval: TimeInterval,
    msg: AnnounceMessage,
    age: Duration,
)
    requires
        msg.header.source_port_identity.clock_identity == own.clock_identity || msg.steps_removed
            >= 255,
    ensures
        registered_in(v, own, interval, msg, age) == v,
{
}

/// A qualified announce message of a sender that is not yet a foreign
/// master makes it a new foreign master, after the others, holding just that
/// message, when there is room for one more.
pub proof fn lemma_new_foreign_master(
    v: Seq<MasterView>,
    own: PortIdentity,
    interval: TimeInterval,
    msg: AnnounceMessage,
    age: Duration,
)
    requires
        msg.header.source_port_identity.clock_identity != own.clock_identity,
        msg.steps_removed < 255,
        forall|k: int| 0 <= k < v.len() ==> (#[trigger] v[k]).0 != msg.header.source_port_identity,
        v.len() < MAX_FOREIGN_MASTERS,
    ensures
        registered_in(v, own, interval, msg, age) == v.push(
            (
                msg.header.source_port_identity,
                seq![
                    ForeignAnnounceMessage {
                        message: MasterAnnouncement::PTPv2(msg),
                        age: Duration { bits: 0 },
                    },
                ],
            ),
        ),
{
    lemma_find_master(v, msg.header.source_port_identity, v.len() as int);
}

/// `m` is the most recent announcement of a foreign master of `s` that has
/// at least [`FOREIGN_MASTER_THRESHOLD`] announcements.
pub open spec fn is_most_recent_of_qualified(s: Seq<MasterView>, m: ForeignAnnounceMessage) -> bool {
    exists|k: int|
        0 <= k < s.len() && s[k].1.len() >= FOREIGN_MASTER_THRESHOLD && m == #[trigger] s[k].1.last()
}

/// Taking the qualified announcements keeps every foreign master, in order;
/// of each one with at least [`FOREIGN_MASTER_THRESHOLD`] announcements it
/// takes the most recent one, and leaves the others untouched. Every taken
/// announcement is the most recent one of such a master.
pub proof fn lemma_taken(s: Seq<MasterView>)
    ensures
        taken(s).0.len() == s.len(),
        forall|k: int|
            0 <= k < s.len() ==> (#[trigger] taken(s).0[k]).0 == s[k].0 && taken(s).0[k].1 == if s[k].1.len()
                >= FOREIGN_MASTER_THRESHOLD {
                s[k].1.drop_last()
            } else {
                s[k].1
            },
        forall|j: int|
            0 <= j < taken(s).1.len() ==> is_most_recent_of_qualified(s, #[trigger] taken(s).1[j]),
    decreases s.len(),
{
    if s.len() > 0 {
        let t = s.drop_first();
        lemma_taken(t);
        let (rest, out) = taken(t);
        assert forall|k: int| 0 <= k < s.len() implies (#[trigger] taken(s).0[k]).0 == s[k].0 && taken(
            s,
        ).0[k].1 == if s[k].1.len() >= FOREIGN_MASTER_THRESHOLD {
            s[k].1.drop_last()
        } else {
            s[k].1
        } by {
            if k > 0 {
                assert(taken(s).0[k] == rest[k - 1]);
                assert(t[k - 1] == s[k]);
            }
        }
        assert forall|j: int| 0 <= j < taken(s).1.len() implies is_most_recent_of_qualified(
            s,
            #[trigger] taken(s).1[j],
        ) by {
            if j < out.len() {
                assert(taken(s).1[j] == out[j]);
                let k = choose|k: int|
                    0 <= k < t.len() && t[k].1.len() >= FOREIGN_MASTER_THRESHOLD && out[j]
                        == #[trigger] t[k].1.last();
                assert(s[k + 1] == t[k]);
            } else {
                assert(taken(s).1[j] == s[0].1.last());
                assert(s[0].1.len() >= FOREIGN_MASTER_THRESHOLD);
            }
        }
    } else {
        assert(taken(s).1 =~= Seq::<ForeignAnnounceMessage>::empty());
    }
}

} // verus!
