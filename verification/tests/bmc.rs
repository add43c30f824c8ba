use core::cmp::Ordering;

use statime::bmc::bmca::{BestAnnounceMessage, Bmca, RecommendedState};
use statime::bmc::dataset_comparison::{ComparisonDataset, DatasetOrdering};
use statime::config::{ClockAccuracy, ClockIdentity, ClockQuality};
use statime::datastructures::common::{PortIdentity, WireTimestamp};
use statime::datastructures::datasets::InternalDefaultDS;
use statime::datastructures::messages::{AnnounceMessage, Header, SdoId};
use statime::datastructures::datasets::PathTraceDS;
use statime::port::bmca::{
    set_forced_port_state, set_recommended_port_state, update_path_trace, PendingTimers,
};
use statime::port::state::{PortState, SlaveState};

const IDENTITY_A: ClockIdentity = ClockIdentity([1, 1, 1, 1, 1, 1, 1, 1]);
const IDENTITY_B: ClockIdentity = ClockIdentity([2, 2, 2, 2, 2, 2, 2, 2]);
const IDENTITY_C: ClockIdentity = ClockIdentity([3, 3, 3, 3, 3, 3, 3, 3]);

fn default_best_announce_message() -> BestAnnounceMessage {
    let header = Header {
        sdo_id: Default::default(),
        domain_number: Default::default(),
        source_port_identity: Default::default(),
        sequence_id: Default::default(),
        ..Default::default()
    };

    let message = AnnounceMessage {
        header,
        origin_timestamp: Default::default(),
        current_utc_offset: Default::default(),
        grandmaster_priority_1: Default::default(),
        grandmaster_clock_quality: Default::default(),
        grandmaster_priority_2: Default::default(),
        grandmaster_identity: Default::default(),
        steps_removed: Default::default(),
        time_source: Default::default(),
    };

    let timestamp = WireTimestamp {
        seconds: 0,
        nanos: 0,
    };

    let identity = PortIdentity {
        clock_identity: ClockIdentity([0; 8]),
        port_number: 1,
    };

    BestAnnounceMessage {
        message,
        timestamp,
        identity,
    }
}

fn get_default_test_pair() -> (ComparisonDataset, ComparisonDataset) {
    Default::default()
}

#[test]
fn best_announce_message_compare_equal() {
    let message1 = default_best_announce_message();
    let message2 = default_best_announce_message();

    let ordering = message1.compare_dataset(&message2).as_ordering();
    assert_eq!(ordering, Ordering::Equal);
}

#[test]
fn best_announce_message_compare() {
    let mut message1 = default_best_announce_message();
    let mut message2 = default_best_announce_message();

    // identities are different
    message1.message.grandmaster_identity = ClockIdentity([0; 8]);
    message2.message.grandmaster_identity = ClockIdentity([1; 8]);

    // higher priority is worse in this ordering
    message1.message.grandmaster_priority_1 = 0;
    message2.message.grandmaster_priority_1 = 1;

    // hence we expect message1 to be better than message2
    assert_eq!(message1.compare_dataset(&message2), DatasetOrdering::Better);
    assert_eq!(message2.compare_dataset(&message1), DatasetOrdering::Worse);

    assert_eq!(message1.compare(&message2), Ordering::Greater);
    assert_eq!(message2.compare(&message1), Ordering::Less);
}

#[test]
fn best_announce_message_max_tie_break() {
    let mut message1 = default_best_announce_message();
    let mut message2 = default_best_announce_message();

    message1.timestamp = WireTimestamp {
        seconds: 1_000_000,
        nanos: 1001,
    };
    message2.timestamp = WireTimestamp {
        seconds: 1_000_001,
        nanos: 1000,
    };

    // the newest message should be preferred
    assert!(message2.timestamp > message1.timestamp);

    let ordering = message1.compare_dataset(&message2).as_ordering();
    assert_eq!(ordering, Ordering::Equal);

    // so message1 is lower in the ordering than message2
    assert_eq!(message1.compare(&message2), Ordering::Less)
}

#[test]
fn figure_34() {
    // Start with two identical datasets
    let (mut a, mut b) = get_default_test_pair();

    a.gm_identity = IDENTITY_A;
    b.gm_identity = IDENTITY_B;

    assert_eq!(a.compare(&b), DatasetOrdering::Better);
    assert_eq!(b.compare(&a), DatasetOrdering::Worse);

    a.gm_priority_2 = 1;
    b.gm_priority_2 = 0;

    assert_eq!(a.compare(&b), DatasetOrdering::Worse);
    assert_eq!(b.compare(&a), DatasetOrdering::Better);

    a.gm_clock_quality.offset_scaled_log_variance = 0;
    b.gm_clock_quality.offset_scaled_log_variance = 1;

    assert_eq!(a.compare(&b), DatasetOrdering::Better);
    assert_eq!(b.compare(&a), DatasetOrdering::Worse);

    a.gm_clock_quality.clock_accuracy = ClockAccuracy::US1;
    b.gm_clock_quality.clock_accuracy = ClockAccuracy::NS1;

    assert_eq!(a.compare(&b), DatasetOrdering::Worse);
    assert_eq!(b.compare(&a), DatasetOrdering::Better);

    a.gm_clock_quality.clock_class = 0;
    b.gm_clock_quality.clock_class = 1;

    assert_eq!(a.compare(&b), DatasetOrdering::Better);
    assert_eq!(b.compare(&a), DatasetOrdering::Worse);

    a.gm_priority_1 = 1;
    b.gm_priority_1 = 0;

    assert_eq!(a.compare(&b), DatasetOrdering::Worse);
    assert_eq!(b.compare(&a), DatasetOrdering::Better);
}

#[test]
fn figure_35() {
    let (mut a, mut b) = get_default_test_pair();

    assert_eq!(a.compare(&b), DatasetOrdering::Error2);
    assert_eq!(b.compare(&a), DatasetOrdering::Error2);

    a.identity_of_receiver.port_number = 1;
    b.identity_of_receiver.port_number = 0;

    assert_eq!(a.compare(&b), DatasetOrdering::WorseByTopology);
    assert_eq!(b.compare(&a), DatasetOrdering::BetterByTopology);

    a.identity_of_senders = IDENTITY_A;
    b.identity_of_senders = IDENTITY_B;

    assert_eq!(a.compare(&b), DatasetOrdering::BetterByTopology);
    assert_eq!(b.compare(&a), DatasetOrdering::WorseByTopology);

    a.steps_removed = 0;
    a.identity_of_receiver.clock_identity = IDENTITY_A;
    b.steps_removed = 1;
    b.identity_of_receiver.clock_identity = IDENTITY_B;

    assert_eq!(a.compare(&b), DatasetOrdering::Error1);
    assert_eq!(b.compare(&a), DatasetOrdering::Error1);

    a.identity_of_receiver.clock_identity = IDENTITY_B;
    b.identity_of_receiver.clock_identity = IDENTITY_C;

    assert_eq!(a.compare(&b), DatasetOrdering::BetterByTopology);
    assert_eq!(b.compare(&a), DatasetOrdering::WorseByTopology);

    // the inverse of the identity_of_senders
    a.identity_of_receiver.clock_identity = IDENTITY_B;
    b.identity_of_receiver.clock_identity = IDENTITY_A;

    assert_eq!(a.compare(&b), DatasetOrdering::Better);
    assert_eq!(b.compare(&a), DatasetOrdering::Worse);

    a.steps_removed = 0;
    b.steps_removed = 2;

    assert_eq!(a.compare(&b), DatasetOrdering::Better);
    assert_eq!(b.compare(&a), DatasetOrdering::Worse);
}

fn own_data(clock_class: u8, priority_1: u8) -> InternalDefaultDS {
    InternalDefaultDS {
        clock_identity: IDENTITY_B,
        number_ports: 1,
        clock_quality: ClockQuality {
            clock_class,
            clock_accuracy: ClockAccuracy::Unknown,
            offset_scaled_log_variance: 0xffff,
        },
        priority_1,
        priority_2: 128,
        domain_number: 0,
        slave_only: false,
        sdo_id: SdoId::default(),
    }
}

fn message_from(gm: ClockIdentity, priority_1: u8, receiver_port: u16) -> BestAnnounceMessage {
    let mut m = default_best_announce_message();
    m.message.grandmaster_identity = gm;
    m.message.grandmaster_priority_1 = priority_1;
    m.message.grandmaster_clock_quality = ClockQuality {
        clock_class: 248,
        clock_accuracy: ClockAccuracy::Unknown,
        offset_scaled_log_variance: 0xffff,
    };
    m.message.header.source_port_identity = PortIdentity {
        clock_identity: gm,
        port_number: 1,
    };
    m.identity = PortIdentity {
        clock_identity: IDENTITY_B,
        port_number: receiver_port,
    };
    m
}

#[test]
fn dataset_compared_with_itself_is_error2() {
    let mut a = ComparisonDataset::default();
    a.gm_identity = IDENTITY_C;
    a.steps_removed = 3;
    assert_eq!(a.compare(&a), DatasetOrdering::Error2);
}

#[test]
fn comparison_is_antisymmetric_on_priority() {
    let (mut a, mut b) = get_default_test_pair();
    a.gm_identity = IDENTITY_A;
    b.gm_identity = IDENTITY_C;
    a.gm_priority_1 = 10;
    b.gm_priority_1 = 20;
    assert_eq!(a.compare(&b), DatasetOrdering::Better);
    assert_eq!(b.compare(&a), DatasetOrdering::Worse);
    assert_eq!(a.compare(&b).as_ordering(), Ordering::Greater);
    assert_eq!(b.compare(&a).as_ordering(), Ordering::Less);
}

#[test]
fn as_ordering_of_each_result() {
    assert_eq!(DatasetOrdering::Better.as_ordering(), Ordering::Greater);
    assert_eq!(DatasetOrdering::BetterByTopology.as_ordering(), Ordering::Greater);
    assert_eq!(DatasetOrdering::Error1.as_ordering(), Ordering::Equal);
    assert_eq!(DatasetOrdering::Error2.as_ordering(), Ordering::Equal);
    assert_eq!(DatasetOrdering::WorseByTopology.as_ordering(), Ordering::Less);
    assert_eq!(DatasetOrdering::Worse.as_ordering(), Ordering::Less);
}

#[test]
fn find_best_of_no_messages_is_none() {
    assert!(Bmca::find_best_announce_message(&[]).is_none());
}

#[test]
fn find_best_takes_the_best_message() {
    let worse = message_from(IDENTITY_C, 200, 1);
    let better = message_from(IDENTITY_A, 100, 1);
    let best = Bmca::find_best_announce_message(&[worse, better, worse]).unwrap();
    assert_eq!(best.message.grandmaster_identity, IDENTITY_A);
    assert_eq!(best.message.grandmaster_priority_1, 100);
}

#[test]
fn find_best_takes_the_newest_of_equal_messages() {
    let mut older = message_from(IDENTITY_A, 100, 1);
    older.timestamp = WireTimestamp {
        seconds: 10,
        nanos: 0,
    };
    let mut newer = older;
    newer.timestamp = WireTimestamp {
        seconds: 10,
        nanos: 5,
    };
    let best = Bmca::find_best_announce_message(&[newer, older]).unwrap();
    assert_eq!(best.timestamp, newer.timestamp);
    let best = Bmca::find_best_announce_message(&[older, newer]).unwrap();
    assert_eq!(best.timestamp, newer.timestamp);
}

#[test]
fn listening_port_without_messages_keeps_its_state() {
    let d0 = own_data(248, 128);
    let r = Bmca::calculate_recommended_state(&d0, None, None, &PortState::Listening);
    assert!(r.is_none());
}

#[test]
fn port_without_any_message_becomes_master_m2() {
    let d0 = own_data(248, 128);
    let r = Bmca::calculate_recommended_state(&d0, None, None, &PortState::Faulty);
    assert!(matches!(r, Some(RecommendedState::M2(_))));
}

#[test]
fn class_below_128_without_better_message_is_m1() {
    let d0 = own_data(6, 128);
    let r = Bmca::calculate_recommended_state(&d0, None, None, &PortState::Master);
    assert!(matches!(r, Some(RecommendedState::M1(_))));
}

#[test]
fn class_below_128_with_better_message_is_p1() {
    let d0 = own_data(6, 128);
    let mut m = message_from(IDENTITY_A, 0, 1);
    m.message.grandmaster_clock_quality.clock_class = 1;
    let r = Bmca::calculate_recommended_state(&d0, Some(m), Some(m), &PortState::Master);
    assert!(matches!(r, Some(RecommendedState::P1(_))));
}

#[test]
fn port_with_the_best_message_becomes_slave() {
    let d0 = own_data(248, 128);
    let m = message_from(IDENTITY_A, 10, 1);
    let r = Bmca::calculate_recommended_state(&d0, Some(m), Some(m), &PortState::Listening);
    match r {
        Some(RecommendedState::S1(a)) => assert_eq!(a.grandmaster_identity, IDENTITY_A),
        _ => panic!("expected a slave recommendation"),
    }
}

#[test]
fn own_clock_better_than_all_messages_is_m2() {
    let d0 = own_data(248, 1);
    let m = message_from(IDENTITY_C, 200, 1);
    let r = Bmca::calculate_recommended_state(&d0, Some(m), Some(m), &PortState::Listening);
    assert!(matches!(r, Some(RecommendedState::M2(_))));
}

#[test]
fn other_port_has_the_best_message_gives_m3() {
    let d0 = own_data(248, 128);
    let ebest = message_from(IDENTITY_A, 10, 2);
    let mut erbest = message_from(IDENTITY_C, 100, 1);
    erbest.timestamp = WireTimestamp {
        seconds: 5,
        nanos: 0,
    };
    let r = Bmca::calculate_recommended_state(&d0, Some(ebest), Some(erbest), &PortState::Listening);
    assert!(matches!(r, Some(RecommendedState::M3(_))));
}

#[test]
fn slave_state_keeps_its_master() {
    let id = PortIdentity {
        clock_identity: IDENTITY_A,
        port_number: 7,
    };
    let s = SlaveState::new(id);
    assert_eq!(s.remote_master(), id);
    assert!(matches!(PortState::default(), PortState::Faulty));
}

#[test]
fn master_announcement_sequence_id() {
    let mut m = default_best_announce_message().message;
    m.header.sequence_id = 77;
    let a = statime::bmc::foreign_master::MasterAnnouncement::PTPv2(m);
    assert_eq!(a.sequence_id(), 77);
}

fn slave_of(gm: ClockIdentity) -> RecommendedState {
    RecommendedState::S1(message_from(gm, 10, 1).message)
}

#[test]
fn recommended_slave_follows_the_sender() {
    let d0 = own_data(248, 128);
    let mut state = PortState::Listening;
    let change = set_recommended_port_state(&mut state, &slave_of(IDENTITY_A), &d0, false);
    assert!(change.forced);
    assert!(!change.demobilize_filter);
    assert_eq!(change.pending, Some(PendingTimers::AnnounceReceiptAndDelayRequest));
    match &state {
        PortState::Slave(s) => assert_eq!(
            s.remote_master(),
            PortIdentity {
                clock_identity: IDENTITY_A,
                port_number: 1
            }
        ),
        _ => panic!("expected a slave"),
    }

    // the same master again changes nothing
    let change = set_recommended_port_state(&mut state, &slave_of(IDENTITY_A), &d0, false);
    assert!(!change.forced);
    assert_eq!(change.pending, None);
    assert!(matches!(state, PortState::Slave(_)));

    // another master restarts the slave and its filter
    let change = set_recommended_port_state(&mut state, &slave_of(IDENTITY_C), &d0, false);
    assert!(change.forced);
    assert!(change.demobilize_filter);
}

#[test]
fn recommended_master_of_a_slave_only_instance_listens() {
    let mut d0 = own_data(248, 128);
    d0.slave_only = true;
    let mut state = PortState::Slave(SlaveState::new(PortIdentity::default()));
    let change = set_recommended_port_state(&mut state, &RecommendedState::M2(d0), &d0, false);
    assert!(matches!(state, PortState::Listening));
    assert!(change.forced);
    assert!(change.demobilize_filter);
    assert_eq!(change.pending, Some(PendingTimers::AnnounceReceipt));

    let change = set_recommended_port_state(&mut state, &RecommendedState::M1(d0), &d0, false);
    assert!(matches!(state, PortState::Listening));
    assert!(!change.forced);
}

#[test]
fn recommended_master_becomes_master_or_passive() {
    let d0 = own_data(248, 128);
    let mut state = PortState::Listening;
    let change = set_recommended_port_state(&mut state, &RecommendedState::M2(d0), &d0, false);
    assert!(matches!(state, PortState::Master));
    assert_eq!(change.pending, Some(PendingTimers::AnnounceAndSync));

    let mut state = PortState::Listening;
    let change = set_recommended_port_state(&mut state, &RecommendedState::M2(d0), &d0, true);
    assert!(matches!(state, PortState::Passive));
    assert!(change.forced);
    assert_eq!(change.pending, None);

    let mut state = PortState::Faulty;
    let change = set_recommended_port_state(&mut state, &RecommendedState::M3(message_from(IDENTITY_A, 1, 1).message), &d0, false);
    assert!(matches!(state, PortState::Faulty));
    assert!(!change.forced);
}

#[test]
fn recommended_passive() {
    let d0 = own_data(248, 128);
    let mut state = PortState::Master;
    let change = set_recommended_port_state(&mut state, &RecommendedState::P2(message_from(IDENTITY_A, 1, 1).message), &d0, false);
    assert!(matches!(state, PortState::Passive));
    assert!(change.forced);
    assert!(!change.demobilize_filter);
    let mut state = PortState::Faulty;
    let change = set_recommended_port_state(&mut state, &RecommendedState::P1(message_from(IDENTITY_A, 1, 1).message), &d0, false);
    assert!(matches!(state, PortState::Faulty));
    assert!(!change.forced);
}

#[test]
fn forced_state_replaces_filter_of_slave() {
    let mut state = PortState::Slave(SlaveState::new(PortIdentity::default()));
    assert!(set_forced_port_state(&mut state, PortState::Master));
    assert!(matches!(state, PortState::Master));
    assert!(!set_forced_port_state(&mut state, PortState::Passive));
    assert!(set_forced_port_state(&mut state, PortState::Faulty));
}

#[test]
fn path_trace_is_taken_on() {
    let mut ds = PathTraceDS::new(true);
    let value = [1, 1, 1, 1, 1, 1, 1, 1, 3, 3, 3, 3, 3, 3, 3, 3, 9, 9];
    assert!(!update_path_trace(&mut ds, IDENTITY_B, &value));
    assert_eq!(ds.list.as_slice(), &[IDENTITY_A, IDENTITY_C]);
    assert!(ds.enable);
}

#[test]
fn path_trace_with_own_identity_is_a_loop() {
    let mut ds = PathTraceDS::new(true);
    let value = [1, 1, 1, 1, 1, 1, 1, 1, 2, 2, 2, 2, 2, 2, 2, 2];
    assert!(update_path_trace(&mut ds, IDENTITY_B, &value));
    assert!(ds.list.is_empty());
}

#[test]
fn disabled_path_trace_is_ignored() {
    let mut ds = PathTraceDS::new(false);
    let value = [2, 2, 2, 2, 2, 2, 2, 2];
    assert!(!update_path_trace(&mut ds, IDENTITY_B, &value));
    assert!(ds.list.is_empty());
}

fn foreign_list() -> statime::bmc::foreign_master::ForeignMasterList {
    statime::bmc::foreign_master::ForeignMasterList::new(
        statime::datastructures::common::TimeInterval(fixed::types::I48F16::from_num(1_000_000_000)),
        PortIdentity {
            clock_identity: IDENTITY_A,
            port_number: 1,
        },
    )
}

fn announce_from(gm: ClockIdentity, sequence_id: u16) -> AnnounceMessage {
    let mut m = message_from(gm, 10, 1).message;
    m.header.sequence_id = sequence_id;
    m
}

fn seconds(s: i128) -> statime::time::Duration {
    statime::time::Duration {
        bits: s * 1_000_000_000 << 32,
    }
}

#[test]
fn foreign_masters_are_registered_and_qualified() {
    let mut list = foreign_list();
    let header = Header::default();
    // from another instance: a new foreign master
    list.register_announce_message(&header, &announce_from(IDENTITY_B, 1), seconds(0));
    assert_eq!(list.foreign_masters.len(), 1);
    assert_eq!(list.foreign_masters[0].announce_messages.len(), 1);
    // from the own instance: not kept
    list.register_announce_message(&header, &announce_from(IDENTITY_A, 1), seconds(0));
    assert_eq!(list.foreign_masters.len(), 1);
    // too many steps removed: not kept
    let mut far = announce_from(IDENTITY_C, 1);
    far.steps_removed = 255;
    list.register_announce_message(&header, &far, seconds(0));
    assert_eq!(list.foreign_masters.len(), 1);
    // one message is not enough to be qualified
    assert!(list.take_qualified_announce_messages().is_empty());
    // a newer message of the same master
    list.register_announce_message(&header, &announce_from(IDENTITY_B, 2), seconds(1));
    assert_eq!(list.foreign_masters[0].announce_messages.len(), 2);
    // an older message of the same master is not kept
    list.register_announce_message(&header, &announce_from(IDENTITY_B, 0), seconds(1));
    assert_eq!(list.foreign_masters[0].announce_messages.len(), 2);
    // the most recent message is taken
    let taken = list.take_qualified_announce_messages();
    assert_eq!(taken.len(), 1);
    assert_eq!(taken[0].message.sequence_id(), 2);
    assert_eq!(taken[0].age, seconds(1));
    assert_eq!(list.foreign_masters[0].announce_messages.len(), 1);
}

#[test]
fn foreign_masters_age_out() {
    let mut list = foreign_list();
    let header = Header::default();
    list.register_announce_message(&header, &announce_from(IDENTITY_B, 1), seconds(0));
    list.register_announce_message(&header, &announce_from(IDENTITY_C, 1), seconds(0));
    assert_eq!(list.foreign_masters.len(), 2);
    list.step_age(seconds(3));
    assert_eq!(list.foreign_masters.len(), 2);
    assert_eq!(list.foreign_masters[1].announce_messages[0].age, seconds(3));
    // the time window is four announce intervals
    list.step_age(seconds(1));
    assert_eq!(list.foreign_masters.len(), 0);
}

#[test]
fn foreign_master_keeps_the_latest_messages() {
    let mut list = foreign_list();
    let header = Header::default();
    for sequence_id in 0..10u16 {
        list.register_announce_message(&header, &announce_from(IDENTITY_B, sequence_id), seconds(0));
    }
    assert_eq!(list.foreign_masters[0].announce_messages.len(), 8);
    assert_eq!(list.foreign_masters[0].announce_messages[0].message.sequence_id(), 2);
    assert_eq!(list.foreign_masters[0].announce_messages[7].message.sequence_id(), 9);
}
