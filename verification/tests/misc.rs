use core::time::Duration;

use statime::clock::TimeProperties;
use statime::config::{ClockAccuracy, ClockIdentity, ClockQuality, InstanceConfig, SdoId};
use statime::crypto::{NoSpaceError, SecurityPolicy};
use statime::datastructures::common::PortIdentity;
use statime::datastructures::datasets::{InternalDefaultDS, InternalParentDS};
use statime::observability::default::DefaultDS;
use statime::observability::parent::ParentDS;
use statime::observability::port::{DelayMechanism, PortState};
use statime::time::Interval;
use statime::config::{DelayMechanism as PortDelayMechanism, PortConfig};
use statime::time::Duration as PtpDuration;

#[test]
fn interval_as_core_duration() {
    assert_eq!(Interval::from_log_2(2).as_core_duration(), Duration::from_secs(4));
    assert_eq!(Interval::from_log_2(-2).as_core_duration(), Duration::from_millis(250));
    assert_eq!(Interval::from_log_2(3).as_core_duration(), Duration::from_secs(8));
    assert_eq!(Interval::from_log_2(-3).as_core_duration(), Duration::from_millis(125));
    assert_eq!(Interval::from_log_2(0).as_core_duration(), Duration::from_secs(1));
    assert_eq!(Interval::from_log_2(63).as_core_duration(), Duration::from_secs(1 << 63));
}

#[test]
fn interval_rounds_to_the_nearest_nanosecond() {
    // 2^-10 s is 976562.5 ns: the tie goes to the even neighbour
    assert_eq!(Interval::from_log_2(-10).as_core_duration(), Duration::from_nanos(976562));
    // 2^-11 s is 488281.25 ns
    assert_eq!(Interval::from_log_2(-11).as_core_duration(), Duration::from_nanos(488281));
    // 2^-12 s is 244140.625 ns
    assert_eq!(Interval::from_log_2(-12).as_core_duration(), Duration::from_nanos(244141));
    // 2^-30 s is 0.93 ns, 2^-31 s is 0.47 ns
    assert_eq!(Interval::from_log_2(-30).as_core_duration(), Duration::from_nanos(1));
    assert_eq!(Interval::from_log_2(-31).as_core_duration(), Duration::from_nanos(0));
    assert_eq!(Interval::from_log_2(-128).as_core_duration(), Duration::from_nanos(0));
}

#[test]
fn interval_log_2() {
    assert_eq!(Interval::one_second().as_log_2(), 0);
    assert_eq!(Interval::two_seconds().as_log_2(), 1);
    assert_eq!(Interval::from(-5i8).as_log_2(), -5);
    assert_eq!(Interval::from_log_2(7).as_log_2(), 7);
    assert_eq!(Interval::two_seconds().as_core_duration(), Duration::from_secs(2));
}

#[test]
fn time_properties_accessors() {
    let ptp = TimeProperties::PtpTime {
        current_utc_offset: Some(37),
        leap_61: false,
        leap_59: false,
        time_traceable: true,
        frequency_traceable: false,
    };
    assert!(ptp.is_ptp_time());
    assert!(!ptp.is_arbitrary_time());
    assert!(ptp.time_traceable());
    assert!(!ptp.frequency_traceable());
    let arb = TimeProperties::ArbitraryTime {
        time_traceable: false,
        frequency_traceable: true,
    };
    assert!(!arb.is_ptp_time());
    assert!(arb.is_arbitrary_time());
    assert!(!arb.time_traceable());
    assert!(arb.frequency_traceable());
}

fn internal_default_ds() -> InternalDefaultDS {
    InternalDefaultDS {
        clock_identity: ClockIdentity::from_mac_address([1, 2, 3, 4, 5, 6]),
        number_ports: 2,
        clock_quality: ClockQuality {
            clock_class: 248,
            clock_accuracy: ClockAccuracy::MS1,
            offset_scaled_log_variance: 0x4000,
        },
        priority_1: 128,
        priority_2: 100,
        domain_number: 3,
        slave_only: true,
        sdo_id: SdoId::new(0x100).unwrap(),
    }
}

#[test]
fn observable_default_ds() {
    let internal = internal_default_ds();
    let ds = DefaultDS::from(&internal);
    assert_eq!(ds.clock_identity, internal.clock_identity);
    assert_eq!(ds.number_ports, 2);
    assert_eq!(ds.clock_quality, internal.clock_quality);
    assert_eq!(ds.priority_1, 128);
    assert_eq!(ds.priority_2, 100);
    assert_eq!(ds.domain_number, 3);
    assert!(ds.slave_only);
    assert_eq!(ds.sdo_id.value(), 0x100);
}

#[test]
fn parent_ds_of_own_grandmaster() {
    let internal = internal_default_ds();
    let parent = InternalParentDS::new(internal);
    assert_eq!(
        parent.parent_port_identity,
        PortIdentity {
            clock_identity: internal.clock_identity,
            port_number: 0
        }
    );
    assert_eq!(parent.grandmaster_identity, internal.clock_identity);
    assert_eq!(parent.grandmaster_priority_1, 128);
    assert_eq!(parent.grandmaster_priority_2, 100);
    let ds = ParentDS::from(&parent);
    assert_eq!(ds.parent_port_identity, parent.parent_port_identity);
    assert_eq!(ds.grandmaster_clock_quality, internal.clock_quality);
    assert_eq!(ds.grandmaster_priority_2, 100);
}

#[test]
fn port_state_values() {
    assert_eq!(PortState::Initializing.to_primitive(), 1);
    assert_eq!(PortState::Listening.to_primitive(), 4);
    assert_eq!(PortState::Slave.to_primitive(), 9);
}

#[test]
fn instance_config_fields() {
    let config = InstanceConfig {
        clock_identity: ClockIdentity::from_mac_address([1, 2, 3, 4, 5, 6]),
        priority_1: 128,
        priority_2: 128,
        domain_number: 0,
        sdo_id: SdoId::default(),
        slave_only: false,
        path_trace: false,
    };
    assert_eq!(config.clock_identity, ClockIdentity([1, 2, 3, 4, 5, 6, 0, 0]));
    assert_eq!(config, config.clone());
}

#[test]
fn security_policy_values() {
    let p = SecurityPolicy {
        ignore_correction: true,
    };
    assert!(p.ignore_correction);
    assert_eq!(NoSpaceError, NoSpaceError);
}

#[test]
fn delay_mechanism_values() {
    assert_eq!(
        DelayMechanism::E2E {
            log_min_delay_req_interval: 0
        }
        .to_primitive(),
        1
    );
    assert_eq!(DelayMechanism::NoMechanism.to_primitive(), 0xfe);
    assert_eq!(DelayMechanism::Special.to_primitive(), 4);
}

#[test]
fn path_trace_starts_empty() {
    let ds = statime::datastructures::datasets::PathTraceDS::new(true);
    assert!(ds.enable);
    assert!(ds.list.is_empty());
    assert_eq!(ds.list.capacity(), 128);
    assert!(!statime::datastructures::datasets::PathTraceDS::new(false).enable);
}

#[test]
fn interval_as_duration() {
    assert_eq!(
        Interval::from_log_2(3).as_duration(),
        PtpDuration {
            bits: 8_000_000_000 << 32
        }
    );
    assert_eq!(
        Interval::from_log_2(-3).as_duration(),
        PtpDuration {
            bits: 125_000_000 << 32
        }
    );
    assert_eq!(Interval::from_log_2(-32).as_duration().bits, 1_000_000_000);
    assert_eq!(
        Interval::from_log_2(64).as_duration().bits,
        1_000_000_000i128 << 96
    );
}

#[test]
fn min_delay_req_interval_is_the_interval_of_the_mechanism() {
    let mut config = PortConfig {
        acceptable_master_list: (),
        delay_mechanism: PortDelayMechanism::E2E {
            interval: Interval::from_log_2(2),
        },
        announce_interval: Interval::from_log_2(1),
        announce_receipt_timeout: 3,
        sync_interval: Interval::from_log_2(0),
        master_only: false,
        delay_asymmetry: PtpDuration::zero(),
    };
    assert_eq!(config.min_delay_req_interval(), Interval::from_log_2(2));
    config.delay_mechanism = PortDelayMechanism::P2P {
        interval: Interval::from_log_2(-1),
    };
    assert_eq!(config.min_delay_req_interval(), Interval::from_log_2(-1));
}

#[test]
fn interval_exceeds_shorter_durations() {
    let second = PtpDuration {
        bits: 1_000_000_000 << 32,
    };
    assert!(Interval::from_log_2(1).exceeds(second));
    assert!(!Interval::from_log_2(0).exceeds(second));
    assert!(Interval::from_log_2(70).exceeds(PtpDuration { bits: i128::MAX }));
    assert!(Interval::from_log_2(65).exceeds(PtpDuration { bits: 1 << 100 }));
    // 2^-40 seconds are 10^9 / 2^8 units of a duration
    assert!(Interval::from_log_2(-40).exceeds(PtpDuration { bits: 3_906_249 }));
    assert!(!Interval::from_log_2(-40).exceeds(PtpDuration { bits: 3_906_250 }));
    assert!(Interval::from_log_2(-128).exceeds(PtpDuration { bits: 0 }));
    assert!(!Interval::from_log_2(-128).exceeds(PtpDuration { bits: 1 }));
}
