use fixed::types::I48F16;
use statime::datastructures::common::{PortIdentity, TimeInterval, WireTimestamp};
use statime::datastructures::messages::Header;
use statime::port::measurement::{Measurement, PeerDelayState};
use statime::port::peer_delay::start_peer_delay_request;
use statime::port::slave::start_delay_request;
use statime::port::timing::{
    apply_filter_update, handle_delay_resp, handle_delay_timestamp, handle_follow_up,
    handle_pdelay_timestamp, handle_peer_delay_response, handle_peer_delay_response_follow_up,
    handle_sync, PortTiming,
};
use statime::port::state::{PortState, SlaveState};
use statime::bmc::bmca::{Bmca, RecommendedState};
use statime::config::{ClockIdentity, LeapIndicator, TimePropertiesDS, TimeSource};
use statime::datastructures::datasets::{
    InternalCurrentDS, InternalDefaultDS, InternalParentDS, PathTraceDS,
};
use statime::datastructures::messages::AnnounceMessage;
use statime::filters::FilterEstimate;
use statime::observability::current::CurrentDS;
use statime::port::bmca::{
    handle_announce, set_recommended_port_state, set_recommended_state, update_path_trace,
    AnnounceOutcome,
};
use statime::ptp_instance::{best_of_instance, PortBmca, PtpInstanceState};
use statime::time::{receive_time, Interval};
use statime::port::master::{
    announce_message, handle_delay_req, handle_pdelay_req, handle_sync_timestamp, path_trace_value,
    send_sync, AnnounceTlvs,
};
use statime::datastructures::messages::timing::{delay_req_message, pdelay_resp_follow_up_message};
use statime::port::{filter_update_action, ForwardedTLV, PortAction};
use statime::filters::FilterUpdate;
use statime::datastructures::common::TlvType;
use statime::time::{Duration, Time};

fn time_micros(us: i128) -> Time {
    Time {
        bits: us * 1000 << 32,
    }
}

fn duration_micros(us: i128) -> Duration {
    Duration {
        bits: us * 1000 << 32,
    }
}

fn timestamp_micros(us: u64) -> WireTimestamp {
    WireTimestamp {
        seconds: us / 1_000_000,
        nanos: ((us % 1_000_000) * 1000) as u32,
    }
}

fn correction_nanos(ns: i32) -> TimeInterval {
    TimeInterval(I48F16::from_num(ns))
}

/// A port with a filter that takes the delay of each measurement as its mean
/// delay, as the test filter of the port does.
struct TestPort {
    timing: PortTiming,
    last_measurement: Option<Measurement>,
}

impl TestPort {
    fn slave() -> TestPort {
        TestPort {
            timing: PortTiming {
                port_state: PortState::Slave(SlaveState::new(PortIdentity::default())),
                peer_delay_state: PeerDelayState::Empty,
                delay_asymmetry: Duration::zero(),
                mean_delay: None,
            },
            last_measurement: None,
        }
    }

    /// Hands a measurement to the filter.
    fn record(&mut self, m: Option<Measurement>) {
        if let Some(measurement) = m {
            let update = FilterUpdate {
                next_update: None,
                mean_delay: measurement.delay,
            };
            assert!(apply_filter_update(&mut self.timing, &update).is_none());
        }
        self.last_measurement = m;
    }
}

#[test]
fn test_sync_without_delay_msg() {
    let mut port = TestPort::slave();
    port.timing.mean_delay = Some(duration_micros(100));

    let m = handle_sync(&mut port.timing,
        &Header {
            two_step_flag: false,
            correction_field: correction_nanos(1000),
            ..Default::default()
        },
        timestamp_micros(0),
        time_micros(50),
    );
    port.record(m);
    assert_eq!(
        port.last_measurement.take(),
        Some(Measurement {
            event_time: time_micros(49),
            offset: Some(duration_micros(-51)),
            delay: None,
            peer_delay: None,
            raw_sync_offset: Some(duration_micros(49)),
            raw_delay_offset: None,
        })
    );

    let m = handle_sync(&mut port.timing,
        &Header {
            two_step_flag: true,
            sequence_id: 15,
            correction_field: correction_nanos(1000),
            ..Default::default()
        },
        timestamp_micros(0),
        time_micros(1050),
    );
    port.record(m);
    assert_eq!(port.last_measurement.take(), None);

    let m = handle_follow_up(&mut port.timing,
        &Header {
            sequence_id: 15,
            correction_field: correction_nanos(2000),
            ..Default::default()
        },
        timestamp_micros(1000),
    );
    port.record(m);
    assert_eq!(
        port.last_measurement.take(),
        Some(Measurement {
            event_time: time_micros(1049),
            offset: Some(duration_micros(-53)),
            delay: None,
            peer_delay: None,
            raw_sync_offset: Some(duration_micros(47)),
            raw_delay_offset: None,
        })
    );
}

#[test]
fn test_delay_asymmetry() {
    let mut port = TestPort::slave();
    port.timing.delay_asymmetry = duration_micros(100);
    port.timing.mean_delay = Some(duration_micros(100));

    let m = handle_sync(&mut port.timing,
        &Header {
            two_step_flag: false,
            correction_field: correction_nanos(1000),
            ..Default::default()
        },
        timestamp_micros(0),
        time_micros(50),
    );
    port.record(m);
    assert_eq!(
        port.last_measurement.take(),
        Some(Measurement {
            event_time: time_micros(49),
            offset: Some(duration_micros(-151)),
            delay: None,
            peer_delay: None,
            raw_sync_offset: Some(duration_micros(-51)),
            raw_delay_offset: None,
        })
    );
}

#[test]
fn test_sync_with_delay() {
    let mut port = TestPort::slave();
    let own = PortIdentity::default();

    let m = handle_sync(&mut port.timing,
        &Header {
            two_step_flag: false,
            correction_field: correction_nanos(1000),
            ..Default::default()
        },
        timestamp_micros(0),
        time_micros(50),
    );
    port.record(m);
    assert_eq!(
        port.last_measurement.take(),
        Some(Measurement {
            event_time: time_micros(49),
            offset: None,
            delay: None,
            peer_delay: None,
            raw_sync_offset: Some(duration_micros(49)),
            raw_delay_offset: None,
        })
    );

    assert!(start_delay_request(&mut port.timing.port_state, 1));
    let m = handle_delay_timestamp(&mut port.timing, 1, time_micros(100));
    port.record(m);
    assert_eq!(port.last_measurement.take(), None);

    let m = handle_delay_resp(&mut port.timing,
        own,
        &Header {
            correction_field: correction_nanos(2000),
            sequence_id: 1,
            ..Default::default()
        },
        timestamp_micros(253),
        own,
    );
    port.record(m);
    assert_eq!(port.timing.mean_delay, Some(duration_micros(100)));
    assert_eq!(
        port.last_measurement.take(),
        Some(Measurement {
            event_time: time_micros(100),
            offset: None,
            delay: Some(duration_micros(100)),
            peer_delay: None,
            raw_sync_offset: None,
            raw_delay_offset: Some(duration_micros(-151)),
        })
    );

    port.timing.mean_delay = None;

    let m = handle_sync(&mut port.timing,
        &Header {
            two_step_flag: true,
            correction_field: correction_nanos(1000),
            ..Default::default()
        },
        timestamp_micros(0),
        time_micros(1050),
    );
    port.record(m);
    assert_eq!(port.last_measurement.take(), None);

    assert!(start_delay_request(&mut port.timing.port_state, 2));
    let m = handle_delay_timestamp(&mut port.timing, 2, time_micros(1100));
    port.record(m);
    assert_eq!(port.last_measurement.take(), None);

    let m = handle_follow_up(&mut port.timing,
        &Header {
            correction_field: correction_nanos(2000),
            ..Default::default()
        },
        timestamp_micros(1000),
    );
    port.record(m);
    assert_eq!(
        port.last_measurement.take(),
        Some(Measurement {
            event_time: time_micros(1049),
            offset: None,
            delay: None,
            peer_delay: None,
            raw_sync_offset: Some(duration_micros(47)),
            raw_delay_offset: None,
        })
    );

    let m = handle_delay_resp(&mut port.timing,
        own,
        &Header {
            correction_field: correction_nanos(2000),
            sequence_id: 2,
            ..Default::default()
        },
        timestamp_micros(1255),
        own,
    );
    port.record(m);
    assert_eq!(port.timing.mean_delay, Some(duration_micros(100)));
    assert_eq!(
        port.last_measurement.take(),
        Some(Measurement {
            event_time: time_micros(1100),
            offset: None,
            delay: Some(duration_micros(100)),
            peer_delay: None,
            raw_sync_offset: None,
            raw_delay_offset: Some(duration_micros(-153)),
        })
    );
}

#[test]
fn duplicate_and_foreign_messages_are_ignored() {
    let mut port = TestPort::slave();
    let header = Header {
        two_step_flag: true,
        sequence_id: 3,
        ..Default::default()
    };
    assert!(handle_sync(&mut port.timing, &header, timestamp_micros(0), time_micros(5)).is_none());
    // the same sync again is ignored: the first receive time stays
    assert!(handle_sync(&mut port.timing, &header, timestamp_micros(0), time_micros(7)).is_none());
    let follow_up = Header {
        sequence_id: 3,
        ..Default::default()
    };
    let m = handle_follow_up(&mut port.timing, &follow_up, timestamp_micros(1)).unwrap();
    assert_eq!(m.event_time, time_micros(5));
    assert_eq!(m.raw_sync_offset, Some(duration_micros(4)));
    // once measured, the follow up again gives nothing
    assert!(handle_follow_up(&mut port.timing, &follow_up, timestamp_micros(1)).is_none());
    // a sync of another master
    let other = Header {
        source_port_identity: PortIdentity {
            clock_identity: Default::default(),
            port_number: 9,
        },
        sequence_id: 4,
        ..Default::default()
    };
    assert!(handle_sync(&mut port.timing, &other, timestamp_micros(0), time_micros(5)).is_none());
    // a port that is no slave takes no sync
    let mut master = PortTiming {
        port_state: PortState::Master,
        ..port.timing
    };
    assert!(handle_sync(&mut master, &header, timestamp_micros(0), time_micros(5)).is_none());
    assert!(matches!(master.port_state, PortState::Master));
    assert!(!start_delay_request(&mut master.port_state, 1));
    // a delay response to another port is ignored
    assert!(start_delay_request(&mut port.timing.port_state, 7));
    assert!(handle_delay_timestamp(&mut port.timing, 7, time_micros(2)).is_none());
    let own = PortIdentity::default();
    let someone = PortIdentity {
        clock_identity: Default::default(),
        port_number: 2,
    };
    let resp = Header {
        sequence_id: 7,
        ..Default::default()
    };
    assert!(handle_delay_resp(&mut port.timing, own, &resp, timestamp_micros(1), someone).is_none());
    assert!(handle_delay_resp(&mut port.timing, own, &resp, timestamp_micros(1), own).is_some());
    assert!(handle_delay_resp(&mut port.timing, own, &resp, timestamp_micros(1), own).is_none());
}

fn start_peer_delay(port: &mut TestPort, id: u16) {
    start_peer_delay_request(&mut port.timing.peer_delay_state, id);
    let m = handle_pdelay_timestamp(&mut port.timing, id, time_micros(50));
    port.record(m);
    assert!(port.last_measurement.take().is_none());
}

fn peer_delay_measurement() -> Option<Measurement> {
    Some(Measurement {
        event_time: time_micros(150),
        offset: None,
        delay: None,
        peer_delay: Some(duration_micros(50)),
        raw_sync_offset: None,
        raw_delay_offset: None,
    })
}

#[test]
fn test_peer_delay_1step() {
    let mut port = TestPort::slave();
    let own = PortIdentity::default();
    start_peer_delay(&mut port, 0);

    let m = handle_peer_delay_response(
        &mut port.timing,
        own,
        &Header {
            correction_field: correction_nanos(2000),
            ..Default::default()
        },
        timestamp_micros(100),
        own,
        time_micros(152),
    );
    port.record(m);
    assert_eq!(port.last_measurement.take(), peer_delay_measurement());
}

#[test]
fn test_peer_delay_2step() {
    let mut port = TestPort::slave();
    let own = PortIdentity::default();
    start_peer_delay(&mut port, 0);

    let header = Header {
        two_step_flag: true,
        correction_field: correction_nanos(1000),
        ..Default::default()
    };
    let m = handle_peer_delay_response(
        &mut port.timing,
        own,
        &header,
        timestamp_micros(100),
        own,
        time_micros(154),
    );
    port.record(m);
    assert!(port.last_measurement.take().is_none());

    let m = handle_peer_delay_response_follow_up(
        &mut port.timing,
        own,
        &Header {
            correction_field: correction_nanos(2000),
            ..Default::default()
        },
        timestamp_micros(101),
        own,
    );
    port.record(m);
    // round trip 153 - 50, turnaround 103 - 100
    assert_eq!(port.last_measurement.take(), Some(Measurement {
        event_time: time_micros(153),
        peer_delay: Some(duration_micros(50)),
        ..peer_delay_measurement().unwrap()
    }));
}

#[test]
fn test_peer_delay_faulty() {
    let mut port = TestPort::slave();
    let own = PortIdentity::default();
    start_peer_delay(&mut port, 0);

    let header = Header {
        correction_field: correction_nanos(2000),
        ..Default::default()
    };
    let m = handle_peer_delay_response(
        &mut port.timing,
        own,
        &header,
        timestamp_micros(100),
        own,
        time_micros(152),
    );
    port.record(m);
    assert_eq!(port.last_measurement.take(), peer_delay_measurement());
    assert!(!matches!(port.timing.port_state, PortState::Faulty));

    // a second device answers the same request
    let m = handle_peer_delay_response(
        &mut port.timing,
        own,
        &Header {
            source_port_identity: PortIdentity {
                clock_identity: Default::default(),
                port_number: 5,
            },
            ..header
        },
        timestamp_micros(100),
        own,
        time_micros(152),
    );
    assert!(m.is_none());
    assert!(matches!(port.timing.port_state, PortState::Faulty));

    // a complete measurement brings the port back
    start_peer_delay(&mut port, 1);
    let m = handle_peer_delay_response(
        &mut port.timing,
        own,
        &Header {
            sequence_id: 1,
            ..header
        },
        timestamp_micros(100),
        own,
        time_micros(152),
    );
    port.record(m);
    assert_eq!(port.last_measurement.take(), peer_delay_measurement());
    assert!(matches!(port.timing.port_state, PortState::Listening));
}

#[test]
fn time_and_duration_arithmetic() {
    assert_eq!(Time::from_timestamp(timestamp_micros(1_500_000)), time_micros(1_500_000));
    assert_eq!(duration_micros(-3).half(), Duration { bits: -(3000i128 << 32) / 2 });
    assert_eq!(Duration { bits: -3 }.half(), Duration { bits: -1 });
    assert_eq!(Duration { bits: 3 }.half(), Duration { bits: 1 });
    assert_eq!(Duration::from_time_interval(&correction_nanos(1000)), duration_micros(1));
    assert_eq!(time_micros(5).since(time_micros(7)), duration_micros(-2));
    assert_eq!(time_micros(5).plus(duration_micros(2)).minus(duration_micros(1)), time_micros(6));
}

const OWN: ClockIdentity = ClockIdentity([1, 1, 1, 1, 1, 1, 1, 1]);
const MASTER: ClockIdentity = ClockIdentity([2, 2, 2, 2, 2, 2, 2, 2]);

fn own_port() -> PortIdentity {
    PortIdentity {
        clock_identity: OWN,
        port_number: 2,
    }
}

fn master_port() -> PortIdentity {
    PortIdentity {
        clock_identity: MASTER,
        port_number: 1,
    }
}

fn default_ds() -> InternalDefaultDS {
    InternalDefaultDS {
        clock_identity: OWN,
        number_ports: 2,
        clock_quality: Default::default(),
        priority_1: 128,
        priority_2: 128,
        domain_number: 0,
        slave_only: false,
        sdo_id: Default::default(),
    }
}

fn announce(steps_removed: u16) -> AnnounceMessage {
    AnnounceMessage {
        header: Header {
            source_port_identity: master_port(),
            sequence_id: 3,
            current_utc_offset_valid: true,
            leap61: true,
            ptp_timescale: true,
            time_tracable: true,
            ..Default::default()
        },
        origin_timestamp: Default::default(),
        current_utc_offset: 37,
        grandmaster_priority_1: 10,
        grandmaster_clock_quality: Default::default(),
        grandmaster_priority_2: 20,
        grandmaster_identity: ClockIdentity([3; 8]),
        steps_removed,
        time_source: TimeSource::Gnss,
    }
}

#[test]
fn announce_time_properties() {
    let tp = announce(0).time_properties();
    assert_eq!(tp.utc_offset(), Some(37));
    assert_eq!(tp.leap_indicator(), LeapIndicator::Leap61);
    assert!(tp.is_ptp());
    assert!(tp.time_traceable);
    assert!(!tp.frequency_traceable);
    assert_eq!(tp.time_source, TimeSource::Gnss);
}

#[test]
fn recommended_slave_takes_the_masters_data_sets() {
    let mut port_state = PortState::Listening;
    let mut path_trace = PathTraceDS::new(true);
    let mut tp = TimePropertiesDS::default();
    let mut current = InternalCurrentDS::default();
    let mut parent = InternalParentDS::new(default_ds());
    let a = announce(4);
    let change = set_recommended_state(
        &mut port_state,
        &RecommendedState::S1(a),
        &mut path_trace,
        &mut tp,
        &mut current,
        &mut parent,
        &default_ds(),
        false,
    );
    assert!(change.forced);
    assert!(matches!(port_state, PortState::Slave(_)));
    assert_eq!(current.steps_removed, 5);
    assert_eq!(parent.parent_port_identity, master_port());
    assert_eq!(parent.grandmaster_identity, ClockIdentity([3; 8]));
    assert_eq!(parent.grandmaster_priority_1, 10);
    assert_eq!(tp, a.time_properties());

    // as a master the instance is its own grandmaster again
    let change = set_recommended_state(
        &mut port_state,
        &RecommendedState::M2(default_ds()),
        &mut path_trace,
        &mut tp,
        &mut current,
        &mut parent,
        &default_ds(),
        false,
    );
    assert!(change.forced);
    assert!(matches!(port_state, PortState::Master));
    assert_eq!(current.steps_removed, 0);
    assert_eq!(parent, InternalParentDS::new(default_ds()));
    assert!(tp.is_ptp());
    assert_eq!(tp.utc_offset(), None);
    assert_eq!(tp.time_source, TimeSource::InternalOscillator);
    assert!(path_trace.list.is_empty());
}

#[test]
fn announce_of_the_master_updates_the_data_sets() {
    let mut bmca = Bmca::new(TimeInterval(I48F16::from_num(1_000_000_000)), own_port());
    let mut port_state = PortState::Slave(SlaveState::new(master_port()));
    let mut current = InternalCurrentDS::default();
    let mut parent = InternalParentDS::new(default_ds());
    parent.parent_port_identity = master_port();
    let mut tp = TimePropertiesDS::default();
    let mut path_trace = PathTraceDS::new(true);
    let a = announce(1);
    let path = [2, 2, 2, 2, 2, 2, 2, 2];
    let outcome = handle_announce(
        &mut port_state,
        own_port(),
        OWN,
        &mut current,
        &mut parent,
        &mut tp,
        &mut path_trace,
        &mut bmca,
        &a.header,
        &a,
        Some(&path),
    );
    assert_eq!(
        outcome,
        AnnounceOutcome::Registered {
            multiport_disable: false,
            demobilize_filter: false
        }
    );
    assert_eq!(current.steps_removed, 2);
    assert_eq!(parent.grandmaster_identity, ClockIdentity([3; 8]));
    assert_eq!(tp, a.time_properties());
    assert_eq!(path_trace.list.as_slice(), &[MASTER]);
    assert_eq!(bmca.foreign_master_list.foreign_masters.len(), 1);

    // a path trace with the instance itself in it is a loop
    let looped = [2, 2, 2, 2, 2, 2, 2, 2, 1, 1, 1, 1, 1, 1, 1, 1];
    let outcome = handle_announce(
        &mut port_state,
        own_port(),
        OWN,
        &mut current,
        &mut parent,
        &mut tp,
        &mut path_trace,
        &mut bmca,
        &a.header,
        &a,
        Some(&looped),
    );
    assert_eq!(outcome, AnnounceOutcome::ClockLoop);
    assert_eq!(path_trace.list.as_slice(), &[MASTER]);
}

#[test]
fn announce_of_a_lower_port_of_the_instance_disables_the_port() {
    let mut bmca = Bmca::new(TimeInterval(I48F16::from_num(1_000_000_000)), own_port());
    let mut port_state = PortState::Master;
    let mut current = InternalCurrentDS::default();
    let mut parent = InternalParentDS::new(default_ds());
    let mut tp = TimePropertiesDS::default();
    let mut path_trace = PathTraceDS::new(false);
    let mut a = announce(0);
    a.header.source_port_identity = PortIdentity {
        clock_identity: OWN,
        port_number: 1,
    };
    let outcome = handle_announce(
        &mut port_state,
        own_port(),
        OWN,
        &mut current,
        &mut parent,
        &mut tp,
        &mut path_trace,
        &mut bmca,
        &a.header,
        &a,
        None,
    );
    assert_eq!(
        outcome,
        AnnounceOutcome::Registered {
            multiport_disable: true,
            demobilize_filter: false
        }
    );
    assert!(matches!(port_state, PortState::Passive));
    // a message of the own instance is not kept as a foreign master
    assert_eq!(bmca.foreign_master_list.foreign_masters.len(), 0);

    // a message the port sent itself is not registered
    a.header.source_port_identity = own_port();
    let outcome = handle_announce(
        &mut port_state,
        own_port(),
        OWN,
        &mut current,
        &mut parent,
        &mut tp,
        &mut path_trace,
        &mut bmca,
        &a.header,
        &a,
        None,
    );
    assert_eq!(outcome, AnnounceOutcome::NotRegistered);
    assert_eq!(current, InternalCurrentDS::default());
}

#[test]
fn bmca_ages_its_foreign_masters() {
    let mut bmca = Bmca::new(TimeInterval(I48F16::from_num(1_000_000_000)), own_port());
    let a = announce(0);
    assert!(bmca.register_announce_message(&a.header, &a));
    assert_eq!(bmca.foreign_master_list.foreign_masters.len(), 1);
    bmca.step_age(Duration {
        bits: 4_000_000_000i128 << 32,
    });
    assert_eq!(bmca.foreign_master_list.foreign_masters.len(), 0);
}

#[test]
fn current_data_set_of_a_port() {
    let current = InternalCurrentDS {
        steps_removed: 3,
        ..Default::default()
    };
    let ds = CurrentDS::from_state(&current, None);
    assert_eq!(ds.steps_removed, 3);
    assert_eq!(ds.offset_from_master, Duration::zero());
    let ds = CurrentDS::from_state(
        &current,
        Some(FilterEstimate {
            offset_from_master: duration_micros(2),
            mean_delay: duration_micros(5),
        }),
    );
    assert_eq!(ds.offset_from_master, duration_micros(2));
    assert_eq!(ds.mean_delay, duration_micros(5));
}

#[test]
fn announce_message_carries_the_data_sets() {
    let tp = announce(0).time_properties();
    let mut parent = InternalParentDS::new(default_ds());
    parent.grandmaster_identity = ClockIdentity([3; 8]);
    parent.grandmaster_priority_1 = 10;
    let current = InternalCurrentDS {
        steps_removed: 2,
        ..Default::default()
    };
    let m = announce_message(&default_ds(), &parent, &tp, &current, own_port(), 9);
    assert_eq!(m.header.source_port_identity, own_port());
    assert_eq!(m.header.sequence_id, 9);
    assert!(m.header.leap61);
    assert!(!m.header.leap59);
    assert!(m.header.current_utc_offset_valid);
    assert_eq!(m.current_utc_offset, 37);
    assert_eq!(m.grandmaster_identity, ClockIdentity([3; 8]));
    assert_eq!(m.grandmaster_priority_1, 10);
    assert_eq!(m.steps_removed, 2);
    assert_eq!(m.time_properties(), tp);

    // without a UTC offset the field is zero and marked invalid
    let arb = TimePropertiesDS::new_arbitrary_time(false, false, TimeSource::InternalOscillator);
    let m = announce_message(&default_ds(), &parent, &arb, &current, own_port(), 10);
    assert!(!m.header.current_utc_offset_valid);
    assert_eq!(m.current_utc_offset, 0);
    assert_eq!(m.time_properties(), arb);
}

#[test]
fn path_trace_value_appends_the_own_clock() {
    let mut ds = PathTraceDS::new(false);
    assert_eq!(path_trace_value(&ds, OWN), None);
    ds.enable = true;
    assert_eq!(path_trace_value(&ds, OWN), Some(vec![1; 8]));
    ds.list.push(MASTER);
    let value = path_trace_value(&ds, OWN).unwrap();
    assert_eq!(value, [[2u8; 8], [1u8; 8]].concat());

    // a slave of this master takes on the path it sent
    let mut slave_ds = PathTraceDS::new(true);
    assert!(!update_path_trace(&mut slave_ds, ClockIdentity([7; 8]), &value));
    assert_eq!(slave_ds.list.as_slice(), &[MASTER, OWN]);

    // a full list leaves no room for the own clock
    let mut full = PathTraceDS::new(true);
    for i in 0..128u8 {
        full.list.push(ClockIdentity([i; 8]));
    }
    assert_eq!(path_trace_value(&full, OWN), None);
}

#[test]
fn announce_tlvs_forward_only_what_the_parent_sent() {
    let mut tlvs = AnnounceTlvs::new(64);
    assert_eq!(tlvs.margin, 960);
    assert!(tlvs.add_path_trace(&[1; 8]));
    assert_eq!(tlvs.bytes, [vec![0, 8, 0, 8], vec![1; 8]].concat());
    assert_eq!(tlvs.margin, 948);

    let from_parent = ForwardedTLV {
        tlv_type: TlvType::Management,
        value: vec![5, 6],
        sender_identity: master_port(),
    };
    assert_eq!(from_parent.size(), 6);
    assert!(tlvs.offer(&from_parent, master_port(), true));
    assert_eq!(tlvs.margin, 942);
    assert_eq!(&tlvs.bytes[12..], &[0, 1, 0, 2, 5, 6]);

    // not from the parent
    assert!(!tlvs.offer(&from_parent, own_port(), true));
    // a path trace of the parent is replaced by the own one
    let path = ForwardedTLV {
        tlv_type: TlvType::PathTrace,
        value: vec![2; 8],
        sender_identity: master_port(),
    };
    assert!(!tlvs.offer(&path, master_port(), true));
    assert!(tlvs.offer(&path, master_port(), false));
    assert_eq!(tlvs.margin, 930);

    // a path trace that does not fit is left out
    let mut small = AnnounceTlvs::new(1010);
    assert!(!small.add_path_trace(&[1; 16]));
    assert!(small.bytes.is_empty());
    assert_eq!(small.margin, 14);
}

#[test]
fn filter_update_asks_for_a_timer() {
    let update = FilterUpdate {
        next_update: Some(core::time::Duration::from_millis(250)),
        mean_delay: None,
    };
    assert!(matches!(
        filter_update_action(&update),
        Some(PortAction::ResetFilterUpdateTimer { duration }) if duration == core::time::Duration::from_millis(250)
    ));
    assert!(filter_update_action(&FilterUpdate::default()).is_none());
}

#[test]
fn forwarded_tlv_owned_is_unchanged() {
    let tlv = ForwardedTLV {
        tlv_type: TlvType::PathTrace,
        value: vec![1, 2, 3],
        sender_identity: master_port(),
    };
    assert_eq!(tlv.size(), 7);
    let owned = tlv.clone().into_owned();
    assert_eq!(owned.value, tlv.value);
    assert_eq!(owned.sender_identity, tlv.sender_identity);
}

#[test]
fn test_follow_up_before_sync() {
    let mut port = TestPort::slave();
    port.timing.mean_delay = Some(duration_micros(100));

    let m = handle_follow_up(&mut port.timing,
        &Header {
            sequence_id: 15,
            correction_field: correction_nanos(2000),
            ..Default::default()
        },
        timestamp_micros(10),
    );
    port.record(m);
    assert_eq!(port.last_measurement.take(), None);

    let m = handle_sync(&mut port.timing,
        &Header {
            two_step_flag: true,
            sequence_id: 15,
            correction_field: correction_nanos(1000),
            ..Default::default()
        },
        timestamp_micros(0),
        time_micros(50),
    );
    port.record(m);
    assert_eq!(
        port.last_measurement.take(),
        Some(Measurement {
            event_time: time_micros(49),
            offset: Some(duration_micros(-63)),
            delay: None,
            peer_delay: None,
            raw_sync_offset: Some(duration_micros(37)),
            raw_delay_offset: None,
        })
    );
}

#[test]
fn test_old_followup_during() {
    let mut port = TestPort::slave();
    port.timing.mean_delay = Some(duration_micros(100));

    let m = handle_sync(&mut port.timing,
        &Header {
            two_step_flag: true,
            sequence_id: 15,
            correction_field: correction_nanos(1000),
            ..Default::default()
        },
        timestamp_micros(0),
        time_micros(50),
    );
    port.record(m);
    assert_eq!(port.last_measurement.take(), None);

    let m = handle_follow_up(&mut port.timing,
        &Header {
            sequence_id: 14,
            correction_field: correction_nanos(2000),
            ..Default::default()
        },
        timestamp_micros(10),
    );
    port.record(m);
    assert_eq!(port.last_measurement.take(), None);

    let m = handle_follow_up(&mut port.timing,
        &Header {
            sequence_id: 15,
            correction_field: correction_nanos(2000),
            ..Default::default()
        },
        timestamp_micros(10),
    );
    port.record(m);
    assert_eq!(port.last_measurement.take(), None);
}

#[test]
fn test_reset_after_missing_followup() {
    let mut port = TestPort::slave();
    port.timing.mean_delay = Some(duration_micros(100));

    let m = handle_sync(&mut port.timing,
        &Header {
            two_step_flag: true,
            sequence_id: 14,
            correction_field: correction_nanos(1000),
            ..Default::default()
        },
        timestamp_micros(0),
        time_micros(50),
    );
    port.record(m);
    assert_eq!(port.last_measurement.take(), None);

    let m = handle_sync(&mut port.timing,
        &Header {
            two_step_flag: true,
            sequence_id: 15,
            correction_field: correction_nanos(1000),
            ..Default::default()
        },
        timestamp_micros(0),
        time_micros(1050),
    );
    port.record(m);
    assert_eq!(port.last_measurement.take(), None);

    let m = handle_follow_up(&mut port.timing,
        &Header {
            sequence_id: 15,
            correction_field: correction_nanos(2000),
            ..Default::default()
        },
        timestamp_micros(1000),
    );
    port.record(m);
    assert_eq!(
        port.last_measurement.take(),
        Some(Measurement {
            event_time: time_micros(1049),
            offset: Some(duration_micros(-53)),
            delay: None,
            peer_delay: None,
            raw_sync_offset: Some(duration_micros(47)),
            raw_delay_offset: None,
        })
    );
}

#[test]
fn test_ignore_unrelated_delayresp() {
    let mut port = TestPort::slave();
    let own = PortIdentity::default();

    let m = handle_sync(&mut port.timing,
        &Header {
            two_step_flag: false,
            correction_field: correction_nanos(1000),
            ..Default::default()
        },
        timestamp_micros(0),
        time_micros(50),
    );
    port.record(m);
    assert_eq!(
        port.last_measurement.take(),
        Some(Measurement {
            event_time: time_micros(49),
            offset: None,
            delay: None,
            peer_delay: None,
            raw_sync_offset: Some(duration_micros(49)),
            raw_delay_offset: None,
        })
    );

    assert!(start_delay_request(&mut port.timing.port_state, 7));
    let m = handle_delay_timestamp(&mut port.timing, 7, time_micros(100));
    port.record(m);
    assert_eq!(port.last_measurement.take(), None);

    // a response to another port
    let m = handle_delay_resp(&mut port.timing,
        own,
        &Header {
            correction_field: correction_nanos(2000),
            sequence_id: 7,
            ..Default::default()
        },
        timestamp_micros(353),
        PortIdentity {
            port_number: 83,
            ..Default::default()
        },
    );
    port.record(m);
    assert_eq!(port.last_measurement.take(), None);

    // a response to an earlier request
    let m = handle_delay_resp(&mut port.timing,
        own,
        &Header {
            correction_field: correction_nanos(2000),
            sequence_id: 6,
            ..Default::default()
        },
        timestamp_micros(353),
        own,
    );
    port.record(m);
    assert_eq!(port.last_measurement.take(), None);

    let m = handle_delay_resp(&mut port.timing,
        own,
        &Header {
            correction_field: correction_nanos(2000),
            sequence_id: 7,
            ..Default::default()
        },
        timestamp_micros(253),
        own,
    );
    port.record(m);
    assert_eq!(port.timing.mean_delay, Some(duration_micros(100)));
    assert_eq!(
        port.last_measurement.take(),
        Some(Measurement {
            event_time: time_micros(100),
            offset: None,
            delay: Some(duration_micros(100)),
            peer_delay: None,
            raw_sync_offset: None,
            raw_delay_offset: Some(duration_micros(-151)),
        })
    );
}

#[test]
fn test_peer_delay_2step_followup_before_response() {
    let mut port = TestPort::slave();
    let own = PortIdentity::default();
    start_peer_delay(&mut port, 0);

    let m = handle_peer_delay_response_follow_up(
        &mut port.timing,
        own,
        &Header {
            correction_field: correction_nanos(1000),
            ..Default::default()
        },
        timestamp_micros(103),
        own,
    );
    port.record(m);
    assert!(port.last_measurement.take().is_none());

    let m = handle_peer_delay_response(
        &mut port.timing,
        own,
        &Header {
            two_step_flag: true,
            correction_field: correction_nanos(1000),
            ..Default::default()
        },
        timestamp_micros(101),
        own,
        time_micros(154),
    );
    port.record(m);
    assert_eq!(
        port.last_measurement.take(),
        Some(Measurement {
            event_time: time_micros(153),
            offset: None,
            delay: None,
            peer_delay: Some(duration_micros(50)),
            raw_sync_offset: None,
            raw_delay_offset: None,
        })
    );
}

fn default_announce_message() -> AnnounceMessage {
    AnnounceMessage {
        header: Header::default(),
        origin_timestamp: Default::default(),
        current_utc_offset: Default::default(),
        grandmaster_priority_1: Default::default(),
        grandmaster_clock_quality: Default::default(),
        grandmaster_priority_2: Default::default(),
        grandmaster_identity: Default::default(),
        steps_removed: Default::default(),
        time_source: Default::default(),
    }
}

fn test_default_ds() -> InternalDefaultDS {
    InternalDefaultDS {
        clock_identity: Default::default(),
        number_ports: 1,
        clock_quality: Default::default(),
        priority_1: 255,
        priority_2: 255,
        domain_number: 0,
        slave_only: false,
        sdo_id: Default::default(),
    }
}

#[test]
fn test_announce_receive() {
    let own = PortIdentity::default();
    let mut bmca = Bmca::new(TimeInterval(I48F16::from_num(2_000_000_000)), own);
    let mut port_state = PortState::Listening;
    let mut current = InternalCurrentDS::default();
    let mut parent = InternalParentDS::new(test_default_ds());
    let mut tp = TimePropertiesDS::default();
    let mut path_trace = PathTraceDS::new(false);

    let mut announce = default_announce_message();
    announce.header.source_port_identity.clock_identity.0 = [1, 2, 3, 4, 5, 6, 7, 8];

    for _ in 0..3 {
        let outcome = handle_announce(
            &mut port_state,
            own,
            ClockIdentity::default(),
            &mut current,
            &mut parent,
            &mut tp,
            &mut path_trace,
            &mut bmca,
            &announce.header,
            &announce,
            None,
        );
        assert!(matches!(outcome, AnnounceOutcome::Registered { .. }));
    }

    let best = bmca.foreign_master_list.take_qualified_announce_messages();
    assert!(!best.is_empty());
}

#[test]
fn test_announce_path_trace_loop() {
    let own = PortIdentity::default();
    let mut bmca = Bmca::new(TimeInterval(I48F16::from_num(2_000_000_000)), own);
    let mut port_state = PortState::Slave(SlaveState::new(Default::default()));
    let mut current = InternalCurrentDS::default();
    let mut parent = InternalParentDS::new(test_default_ds());
    parent.parent_port_identity.clock_identity.0 = [1, 2, 3, 4, 5, 6, 7, 8];
    let mut tp = TimePropertiesDS::default();
    let mut path_trace = PathTraceDS::new(true);

    let mut announce = default_announce_message();
    announce.header.source_port_identity.clock_identity.0 = [1, 2, 3, 4, 5, 6, 7, 8];

    // Clock loop
    let outcome = handle_announce(
        &mut port_state,
        own,
        ClockIdentity::default(),
        &mut current,
        &mut parent,
        &mut tp,
        &mut path_trace,
        &mut bmca,
        &announce.header,
        &announce,
        Some(&[0; 8]),
    );
    assert_eq!(outcome, AnnounceOutcome::ClockLoop);

    // No clock loop
    let outcome = handle_announce(
        &mut port_state,
        own,
        ClockIdentity::default(),
        &mut current,
        &mut parent,
        &mut tp,
        &mut path_trace,
        &mut bmca,
        &announce.header,
        &announce,
        Some(&[0xff; 8]),
    );
    assert!(matches!(outcome, AnnounceOutcome::Registered { .. }));
    assert_eq!(path_trace.list.as_slice(), &[ClockIdentity([0xff; 8])]);
}

fn master_data_sets() -> (InternalDefaultDS, InternalParentDS) {
    let mut default_ds = test_default_ds();
    default_ds.priority_1 = 15;
    default_ds.priority_2 = 128;
    let mut parent = InternalParentDS::new(default_ds);
    parent.grandmaster_priority_1 = 15;
    parent.grandmaster_priority_2 = 128;
    (default_ds, parent)
}

/// The TLVs that a master appends to its announce message, with no TLVs to
/// forward.
fn announce_suffix(default_ds: &InternalDefaultDS, path_trace: &PathTraceDS) -> Vec<u8> {
    let mut tlvs = AnnounceTlvs::new(64);
    if let Some(value) = path_trace_value(path_trace, default_ds.clock_identity) {
        tlvs.add_path_trace(&value);
    }
    tlvs.bytes
}

#[test]
fn test_announce() {
    let (default_ds, parent) = master_data_sets();
    let tp = TimePropertiesDS::default();
    let current = InternalCurrentDS::default();
    let path_trace = PathTraceDS::new(false);

    let msg = announce_message(&default_ds, &parent, &tp, &current, PortIdentity::default(), 0);
    assert_eq!(msg.grandmaster_priority_1, 15);
    assert!(announce_suffix(&default_ds, &path_trace).is_empty());

    let msg2 = announce_message(&default_ds, &parent, &tp, &current, PortIdentity::default(), 1);
    assert_eq!(msg2.grandmaster_priority_1, 15);
    assert!(announce_suffix(&default_ds, &path_trace).is_empty());
    assert_ne!(msg2.header.sequence_id, msg.header.sequence_id);
}

#[test]
fn test_announce_path_trace() {
    let (default_ds, parent) = master_data_sets();
    let tp = TimePropertiesDS::default();
    let current = InternalCurrentDS::default();
    let path_trace = PathTraceDS::new(true);

    let msg = announce_message(&default_ds, &parent, &tp, &current, PortIdentity::default(), 0);
    assert_eq!(msg.grandmaster_priority_1, 15);

    let suffix = announce_suffix(&default_ds, &path_trace);
    // one path trace TLV, holding the own clock identity
    assert_eq!(&suffix[0..2], &[0x00, 0x08]);
    assert_eq!(&suffix[2..4], &[0x00, 0x08]);
    assert_eq!(&suffix[4..], [0; 8].as_ref());
}

fn port_bmca(port_number: u16, port_state: PortState) -> PortBmca {
    PortBmca {
        bmca: Bmca::new(
            TimeInterval(I48F16::from_num(2_000_000_000)),
            PortIdentity {
                clock_identity: Default::default(),
                port_number,
            },
        ),
        port_state,
        master_only: false,
        announce_interval: Interval::from_log_2(1),
        multiport_disable: None,
        local_best: None,
    }
}

#[test]
fn test_multiport_disable() {
    let mut port = port_bmca(1, PortState::Master);
    let own = port.bmca.own_port_identity;
    let mut current = InternalCurrentDS::default();
    let mut parent = InternalParentDS::new(test_default_ds());
    let mut tp = TimePropertiesDS::default();
    let mut path_trace = PathTraceDS::new(false);

    let mut announce = default_announce_message();
    announce.header.source_port_identity.clock_identity = own.clock_identity;
    announce.header.source_port_identity.port_number = 2;
    let outcome = handle_announce(
        &mut port.port_state,
        own,
        own.clock_identity,
        &mut current,
        &mut parent,
        &mut tp,
        &mut path_trace,
        &mut port.bmca,
        &announce.header,
        &announce,
        None,
    );
    assert!(matches!(
        outcome,
        AnnounceOutcome::Registered {
            multiport_disable: false,
            ..
        }
    ));
    assert!(port.multiport_disable.is_none());
    assert!(matches!(port.port_state, PortState::Master));

    let mut announce = default_announce_message();
    announce.header.source_port_identity.clock_identity = own.clock_identity;
    announce.header.source_port_identity.port_number = 0;
    let outcome = handle_announce(
        &mut port.port_state,
        own,
        own.clock_identity,
        &mut current,
        &mut parent,
        &mut tp,
        &mut path_trace,
        &mut port.bmca,
        &announce.header,
        &announce,
        None,
    );
    if let AnnounceOutcome::Registered {
        multiport_disable: true,
        ..
    } = outcome
    {
        port.multiport_disable = Some(Duration::zero());
    }
    assert!(port.multiport_disable.is_some());
    assert!(matches!(port.port_state, PortState::Passive));

    let instance = InternalDefaultDS {
        clock_identity: ClockIdentity::from_mac_address([1, 2, 3, 4, 5, 6]),
        priority_1: 128,
        priority_2: 128,
        ..test_default_ds()
    };
    set_recommended_port_state(
        &mut port.port_state,
        &RecommendedState::M1(instance),
        &instance,
        port.multiport_disable.is_some(),
    );
    assert!(port.multiport_disable.is_some());
    assert!(matches!(port.port_state, PortState::Passive));

    port.step_announce_age(port.announce_interval.as_duration());
    port.step_announce_age(port.announce_interval.as_duration());

    assert!(port.multiport_disable.is_none());
    set_recommended_port_state(
        &mut port.port_state,
        &RecommendedState::M1(instance),
        &instance,
        port.multiport_disable.is_some(),
    );
    assert!(matches!(port.port_state, PortState::Master));
}

#[test]
fn take_best_port_announce_message_keeps_the_best() {
    let mut port = port_bmca(1, PortState::Listening);
    let mut announce = default_announce_message();
    announce.header.source_port_identity.clock_identity.0 = [1, 2, 3, 4, 5, 6, 7, 8];
    let now = WireTimestamp {
        seconds: 10,
        nanos: 0,
    };
    // nothing qualified yet
    assert!(port.bmca.take_best_port_announce_message(now).is_none());
    for id in 0..3 {
        announce.header.sequence_id = id;
        assert!(port.bmca.register_announce_message(&announce.header, &announce));
    }
    port.bmca.step_age(Duration {
        bits: 2_000_000_000 << 32,
    });
    let best = port.bmca.take_best_port_announce_message(now).unwrap();
    assert_eq!(best.message.header.sequence_id, 2);
    assert_eq!(best.identity, port.bmca.own_port_identity);
    // received two seconds before now
    assert_eq!(
        best.timestamp,
        WireTimestamp {
            seconds: 8,
            nanos: 0
        }
    );
    // the best one was kept: the master stays qualified for the next run
    let again = port.bmca.take_best_port_announce_message(now).unwrap();
    assert_eq!(again.message.header.sequence_id, 2);
}

#[test]
fn receive_time_is_now_less_the_age() {
    let now = WireTimestamp {
        seconds: 10,
        nanos: 500,
    };
    assert_eq!(receive_time(now, Duration::zero()), now);
    assert_eq!(
        receive_time(now, Duration { bits: 1_000 << 32 }),
        WireTimestamp {
            seconds: 9,
            nanos: 999_999_500
        }
    );
    assert_eq!(
        receive_time(now, Duration { bits: 20_000_000_000 << 32 }),
        WireTimestamp {
            seconds: 0,
            nanos: 0
        }
    );
}

#[test]
fn instance_bmca_follows_the_better_master() {
    let mut state = PtpInstanceState {
        default_ds: test_default_ds(),
        current_ds: InternalCurrentDS::default(),
        parent_ds: InternalParentDS::new(test_default_ds()),
        path_trace_ds: PathTraceDS::new(false),
        time_properties_ds: TimePropertiesDS::default(),
    };
    let mut ports = vec![port_bmca(1, PortState::Listening), port_bmca(2, PortState::Listening)];
    let mut announce = default_announce_message();
    announce.header.source_port_identity.clock_identity.0 = [1, 2, 3, 4, 5, 6, 7, 8];
    announce.grandmaster_identity = ClockIdentity([9; 8]);
    announce.grandmaster_priority_1 = 1;
    announce.steps_removed = 3;
    for id in 0..3 {
        announce.header.sequence_id = id;
        ports[0]
            .bmca
            .register_announce_message(&announce.header, &announce);
    }
    let now = WireTimestamp {
        seconds: 100,
        nanos: 0,
    };
    state.bmca(&mut ports, Duration { bits: 1 << 32 }, now);

    // the port that heard the master follows it, the other one is its master
    assert!(ports[0].local_best.is_some());
    assert!(ports[1].local_best.is_none());
    assert!(matches!(ports[0].port_state, PortState::Slave(_)));
    assert!(matches!(ports[1].port_state, PortState::Master));
    assert_eq!(state.parent_ds.grandmaster_identity, ClockIdentity([9; 8]));
    assert_eq!(state.current_ds.steps_removed, 4);

    // a port that may only be a master does not take part
    let mut state2 = PtpInstanceState {
        default_ds: test_default_ds(),
        current_ds: InternalCurrentDS::default(),
        parent_ds: InternalParentDS::new(test_default_ds()),
        path_trace_ds: PathTraceDS::new(false),
        time_properties_ds: TimePropertiesDS::default(),
    };
    let mut only = vec![port_bmca(1, PortState::Listening)];
    only[0].master_only = true;
    for id in 0..3 {
        announce.header.sequence_id = id;
        only[0].bmca.register_announce_message(&announce.header, &announce);
    }
    assert!(best_of_instance(&only).is_none());
    state2.bmca(&mut only, Duration { bits: 1 << 32 }, now);
    assert!(only[0].local_best.is_some());
    assert_eq!(state2.current_ds.steps_removed, 0);
}

#[test]
fn test_delay_response() {
    let own = PortIdentity::default();
    let request = Header {
        sequence_id: 5123,
        source_port_identity: PortIdentity {
            port_number: 83,
            ..Default::default()
        },
        correction_field: TimeInterval(I48F16::from_bits(400)),
        ..Default::default()
    };
    let (msg_header, msg) = handle_delay_req(
        &PortState::Master,
        &request,
        own,
        Interval::from_log_2(2),
        Time {
            bits: (200000 << 32) + (500 << 16),
        },
    )
    .unwrap();
    assert_eq!(
        msg.requesting_port_identity,
        PortIdentity {
            port_number: 83,
            ..Default::default()
        }
    );
    assert_eq!(msg_header.sequence_id, 5123);
    assert_eq!(msg.receive_timestamp, timestamp_micros(200));
    assert_eq!(msg_header.log_message_interval, 2);
    assert_eq!(msg_header.correction_field, TimeInterval(I48F16::from_bits(900)));

    let request = Header {
        sequence_id: 879,
        source_port_identity: PortIdentity {
            port_number: 12,
            ..Default::default()
        },
        correction_field: TimeInterval(I48F16::from_bits(200)),
        ..Default::default()
    };
    let (msg_header, msg) = handle_delay_req(
        &PortState::Master,
        &request,
        own,
        Interval::from_log_2(5),
        Time {
            bits: (220000 << 32) + (300 << 16),
        },
    )
    .unwrap();
    assert_eq!(
        msg.requesting_port_identity,
        PortIdentity {
            port_number: 12,
            ..Default::default()
        }
    );
    assert_eq!(msg_header.sequence_id, 879);
    assert_eq!(msg.receive_timestamp, timestamp_micros(220));
    assert_eq!(msg_header.log_message_interval, 5);
    assert_eq!(msg_header.correction_field, TimeInterval(I48F16::from_bits(500)));

    // only a master answers
    assert!(handle_delay_req(&PortState::Listening, &request, own, Interval::from_log_2(5), Time { bits: 0 }).is_none());
}

#[test]
fn test_sync() {
    let (default_ds, _) = master_data_sets();
    let own = PortIdentity::default();
    let (sync_header, sync) = send_sync(&PortState::Master, &default_ds, own, 0).unwrap();
    assert!(sync_header.two_step_flag);
    assert_eq!(sync.origin_timestamp, WireTimestamp::default());
    let (follow_header, follow) = handle_sync_timestamp(
        &PortState::Master,
        &default_ds,
        own,
        sync_header.sequence_id,
        Time {
            bits: (601300 << 32) + (230 << 16),
        },
    )
    .unwrap();
    assert_eq!(sync_header.sequence_id, follow_header.sequence_id);
    assert_eq!(sync_header.correction_field, TimeInterval(I48F16::from_bits(0)));
    assert_eq!(
        follow.precise_origin_timestamp,
        WireTimestamp {
            seconds: 0,
            nanos: 601300
        }
    );
    assert_eq!(follow_header.correction_field, TimeInterval(I48F16::from_bits(230)));

    let (sync2_header, _) = send_sync(&PortState::Master, &default_ds, own, 1).unwrap();
    let (follow2_header, follow2) = handle_sync_timestamp(
        &PortState::Master,
        &default_ds,
        own,
        sync2_header.sequence_id,
        Time {
            bits: (1000601300 << 32) + (543 << 16),
        },
    )
    .unwrap();
    assert_ne!(sync_header.sequence_id, sync2_header.sequence_id);
    assert_eq!(sync2_header.sequence_id, follow2_header.sequence_id);
    assert_eq!(sync2_header.correction_field, TimeInterval(I48F16::from_bits(0)));
    assert_eq!(
        follow2.precise_origin_timestamp,
        WireTimestamp {
            seconds: 1,
            nanos: 601300
        }
    );
    assert_eq!(follow2_header.correction_field, TimeInterval(I48F16::from_bits(543)));

    // a port that is no master sends no sync
    assert!(send_sync(&PortState::Passive, &default_ds, own, 2).is_none());
    assert!(handle_sync_timestamp(&PortState::Passive, &default_ds, own, 2, Time { bits: 0 }).is_none());
}

#[test]
fn test_peer_delay() {
    let default_ds = test_default_ds();
    let own = PortIdentity::default();
    let ((_, response_body), context) =
        handle_pdelay_req(&default_ds, own, &Header::default(), time_micros(500));
    assert_eq!(response_body.request_receive_timestamp, timestamp_micros(500));
    let (id, requestor) = context.as_pdelay_resp().unwrap();

    let follow_up = pdelay_resp_follow_up_message(&default_ds, own, requestor, id, time_micros(550));
    assert_eq!(follow_up.response_origin_timestamp, timestamp_micros(550));
}

#[test]
fn delay_request_message_is_sent_at_no_fixed_interval() {
    let (header, body) = delay_req_message(&test_default_ds(), PortIdentity::default(), 9);
    assert_eq!(header.log_message_interval, 0x7f);
    assert_eq!(header.sequence_id, 9);
    assert_eq!(body.origin_timestamp, WireTimestamp::default());
}
