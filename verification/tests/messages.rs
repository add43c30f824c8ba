use statime::config::{ClockIdentity, LeapIndicator, TimeSource};
use statime::datastructures::common::{
    GrandmasterPropertiesV1, PortIdentity, WireTimestamp, WireTimestampV1,
};
use statime::datastructures::messages::{
    EnumConversionError, Header, ManagementAction, ManagementMessage, MessageType,
    PDelayRespFollowUpMessage, PDelayRespMessage,
};
use statime::datastructures::messages_v1::{
    is_compatible, ControlField, DelayRespMessage, FollowUpMessage, Message as MessageV1,
    MessageBody, PortType, SyncMessage,
};
use statime::datastructures::messages_v1::Header as HeaderV1;
use statime::datastructures::WireFormatError;

#[test]
fn p_delay_resp_timestamp_wireformat() {
    let representations = [(
        [
            0x00, 0x00, 0x45, 0xb1, 0x11, 0x5a, 0x0a, 0x64, 0xfa, 0xb0, 0x01, 0x02, 0x03, 0x04,
            0x05, 0x06, 0x07, 0x08, 0x09, 0x0a,
        ],
        PDelayRespMessage {
            request_receive_timestamp: WireTimestamp {
                seconds: 1169232218,
                nanos: 174389936,
            },
            requesting_port_identity: PortIdentity {
                clock_identity: ClockIdentity([0x01, 0x02, 0x03, 0x04, 0x05, 0x06, 0x07, 0x08]),
                port_number: 0x090a,
            },
        },
    )];

    for (byte_representation, object_representation) in representations {
        // Test the serialization output
        let mut serialization_buffer = [0; 20];
        object_representation
            .serialize_content(&mut serialization_buffer)
            .unwrap();
        assert_eq!(serialization_buffer, byte_representation);

        // Test the deserialization output
        let deserialized_data =
            PDelayRespMessage::deserialize_content(&byte_representation).unwrap();
        assert_eq!(deserialized_data, object_representation);
    }
}

#[test]
fn p_delay_resp_short_buffers_are_rejected() {
    let m = PDelayRespMessage {
        request_receive_timestamp: WireTimestamp { seconds: 1, nanos: 2 },
        requesting_port_identity: PortIdentity::default(),
    };
    assert_eq!(m.content_size(), 20);
    let mut buffer = [0xaau8; 19];
    assert_eq!(m.serialize_content(&mut buffer), Err(WireFormatError::BufferTooShort));
    assert_eq!(buffer, [0xaau8; 19]);
    assert_eq!(
        PDelayRespMessage::deserialize_content(&buffer),
        Err(WireFormatError::BufferTooShort)
    );
}

#[test]
fn p_delay_resp_follow_up_round_trip() {
    let header = Header::default();
    let m = PDelayRespFollowUpMessage {
        header,
        response_origin_timestamp: WireTimestamp {
            seconds: 0x0102_0304_0506,
            nanos: 0x0708_090a,
        },
        requesting_port_identity: PortIdentity {
            clock_identity: ClockIdentity([1, 2, 3, 4, 5, 6, 7, 8]),
            port_number: 9,
        },
    };
    assert_eq!(m.content_size(), 20);
    let mut buffer = [0u8; 20];
    m.serialize_content(&mut buffer).unwrap();
    assert_eq!(
        buffer,
        [1, 2, 3, 4, 5, 6, 7, 8, 9, 10, 1, 2, 3, 4, 5, 6, 7, 8, 0, 9]
    );
    assert_eq!(PDelayRespFollowUpMessage::deserialize_content(header, &buffer), Ok(m));
    assert_eq!(m.response_origin_timestamp(), m.response_origin_timestamp);
    assert_eq!(m.requesting_port_identity(), m.requesting_port_identity);
    assert_eq!(m.header(), header);
    let mut short = [0xaau8; 19];
    assert_eq!(m.serialize_content(&mut short), Err(WireFormatError::BufferTooShort));
    assert_eq!(short, [0xaau8; 19]);
    assert_eq!(
        PDelayRespFollowUpMessage::deserialize_content(header, &short),
        Err(WireFormatError::BufferTooShort)
    );
}

#[test]
fn management_message_deserialize_errors() {
    assert_eq!(
        ManagementMessage::deserialize_content(Header::default(), &[0u8; 17]),
        Err(WireFormatError::BufferTooShort)
    );
    assert_eq!(
        ManagementMessage::deserialize_content(Header::default(), &[0u8; 30]),
        Err(WireFormatError::SliceError)
    );
}

#[test]
fn management_action_values() {
    assert_eq!(ManagementAction::from_primitive(0x02), ManagementAction::RESPONSE);
    assert_eq!(ManagementAction::RESPONSE.to_primitive(), 0x02);
    assert_eq!(ManagementAction::from_primitive(0x10), ManagementAction::Reserved);
}

#[test]
fn message_type_values() {
    assert_eq!(MessageType::Announce.to_primitive(), 0xb);
    assert_eq!(MessageType::try_from_primitive(0xb), Ok(MessageType::Announce));
    assert_eq!(MessageType::try_from_primitive(0x4), Err(EnumConversionError));
}

#[test]
fn v1_compatibility_check() {
    assert!(is_compatible(&[0, 1, 5]));
    assert!(!is_compatible(&[0, 2]));
    assert!(!is_compatible(&[0]));
}

#[test]
fn v1_control_field_and_port_type() {
    assert_eq!(ControlField::FollowUp.to_primitive(), 2);
    assert_eq!(ControlField::try_from_primitive(3), Ok(ControlField::DelayResp));
    assert_eq!(ControlField::try_from_primitive(9), Err(EnumConversionError));
    assert_eq!(PortType::try_from_primitive(PortType::Event.to_primitive()), Ok(PortType::Event));
}

fn v1_header() -> HeaderV1 {
    let mut h = HeaderV1::new();
    h.subdomain = *b"_DFLT\0\0\0\0\0\0\0\0\0\0\0";
    h.source_uuid = [1, 2, 3, 4, 5, 6];
    h.source_port_id = 1;
    h.sequence_id = 42;
    h.leap61 = true;
    h.ptp_assist = true;
    h
}

#[test]
fn v1_header_round_trip() {
    let h = v1_header();
    assert_eq!(h.wire_size(), 40);
    let mut buffer = [0u8; 40];
    h.serialize_header(ControlField::DelayReq, 84, &mut buffer).unwrap();
    assert!(is_compatible(&buffer));
    let read = HeaderV1::deserialize_header(&buffer).unwrap();
    assert_eq!(read.header, h);
    assert_eq!(read.control, ControlField::DelayReq);
    assert_eq!(
        HeaderV1::deserialize_header(&buffer[..39]),
        Err(WireFormatError::BufferTooShort)
    );
    buffer[32] = 9;
    assert_eq!(
        HeaderV1::deserialize_header(&buffer),
        Err(WireFormatError::EnumConversionError)
    );
}

fn sync_body(header: HeaderV1) -> SyncMessage {
    SyncMessage {
        header,
        origin_timestamp: WireTimestampV1 { seconds: 100, nanos: 200 },
        epoch_number: 0,
        current_utc_offset: 37,
        grandmaster: GrandmasterPropertiesV1 {
            communication_technology: 1,
            clock_uuid: [1, 2, 3, 4, 5, 6],
            port_id: 1,
            sequence_id: 42,
            clock_stratum: 1,
            clock_identifier: *b"GPS\0",
            clock_variance: -4000,
            preferred: false,
            is_boundary_clock: false,
        },
        sync_interval: 1,
        local_clock_variance: -4000,
        local_steps_removed: 0,
        local_clock_stratum: 1,
        local_clock_identifier: *b"GPS\0",
        parent_communication_technology: 1,
        parent_uuid: [1, 2, 3, 4, 5, 6],
        parent_port_field: 1,
        estimated_master_variance: 0,
        estimated_master_drift: 0,
        utc_reasonable: true,
    }
}

#[test]
fn v1_sync_message_round_trip() {
    let header = v1_header();
    let message = MessageV1 {
        header,
        body: MessageBody::Sync(sync_body(header)),
    };
    assert!(message.is_event());
    assert_eq!(message.wire_size(), 124);
    let mut buffer = [0u8; 124];
    assert_eq!(message.serialize(&mut buffer), Ok(124));
    assert_eq!(MessageV1::deserialize(&buffer), Ok(message.clone()));
    assert_eq!(MessageV1::deserialize(&buffer[..123]), Err(WireFormatError::BufferTooShort));
}

#[test]
fn v1_sync_time_properties() {
    let body = sync_body(v1_header());
    let tp = body.time_properties();
    assert!(tp.is_ptp());
    assert_eq!(tp.utc_offset(), Some(37));
    assert_eq!(tp.leap_indicator(), LeapIndicator::Leap61);
    assert_eq!(tp.time_source, TimeSource::InternalOscillator);
}

#[test]
fn v1_delay_resp_round_trip() {
    let header = v1_header();
    let message = MessageV1 {
        header,
        body: MessageBody::DelayResp(DelayRespMessage {
            receive_timestamp: WireTimestampV1 { seconds: 7, nanos: 8 },
            requesting_source_communication_technology: 1,
            requesting_source_uuid: [6, 5, 4, 3, 2, 1],
            requesting_source_port_id: 2,
            requesting_source_sequence_id: 3,
        }),
    };
    assert!(!message.is_event());
    let mut buffer = [0u8; 60];
    assert_eq!(message.serialize(&mut buffer), Ok(60));
    assert_eq!(MessageV1::deserialize(&buffer), Ok(message));
}

#[test]
fn v1_follow_up_does_not_read_back_what_it_writes() {
    let m = FollowUpMessage {
        associated_sequence_id: 0x0102,
        precise_origin_timestamp: WireTimestampV1 {
            seconds: 0x03040506,
            nanos: 0x0708090a,
        },
    };
    assert_eq!(m.content_size(), 12);
    let mut buffer = [0u8; 12];
    m.serialize_content(&mut buffer).unwrap();
    assert_eq!(buffer, [1, 2, 3, 4, 5, 6, 7, 8, 9, 10, 0, 0]);
    let read = FollowUpMessage::deserialize_content(&buffer).unwrap();
    assert_eq!(read.associated_sequence_id, 0x0304);
    assert_eq!(read.precise_origin_timestamp.seconds, 0x05060708);
    assert_eq!(read.precise_origin_timestamp.nanos, 0x090a0000);
    assert_ne!(read, m);
}

fn default_ds() -> statime::datastructures::datasets::InternalDefaultDS {
    statime::datastructures::datasets::InternalDefaultDS {
        clock_identity: ClockIdentity([1, 2, 3, 4, 5, 6, 7, 8]),
        number_ports: 1,
        clock_quality: Default::default(),
        priority_1: 128,
        priority_2: 128,
        domain_number: 4,
        slave_only: false,
        sdo_id: statime::config::SdoId::new(0x22).unwrap(),
    }
}

#[test]
fn v2_base_header() {
    let ds = default_ds();
    let port = PortIdentity {
        clock_identity: ds.clock_identity,
        port_number: 3,
    };
    let h = statime::datastructures::messages::base_header(&ds, port, 17);
    assert_eq!(h.sdo_id, ds.sdo_id);
    assert_eq!(h.domain_number, 4);
    assert_eq!(h.source_port_identity(), port);
    assert_eq!(h.sequence_id, 17);
}

#[test]
fn v1_base_header() {
    let ds = default_ds();
    let port = PortIdentity {
        clock_identity: ds.clock_identity,
        port_number: 3,
    };
    let h = statime::datastructures::messages_v1::base_header(&ds, port, 17);
    assert_eq!(h.source_uuid, [1, 2, 3, 4, 5, 6]);
    assert_eq!(h.source_port_id, 3);
    assert_eq!(h.sequence_id, 17);
    assert_eq!(h.version_ptp, 1);
    assert_eq!(h.subdomain, HeaderV1::new().subdomain);
}

#[test]
fn v1_delay_request_of_a_port() {
    let mut ds = default_ds();
    ds.clock_quality.offset_scaled_log_variance = 0xfff0;
    let parent = statime::datastructures::datasets::InternalParentDS {
        parent_port_identity: PortIdentity {
            clock_identity: ClockIdentity([9, 8, 7, 6, 5, 4, 3, 2]),
            port_number: 2,
        },
        grandmaster_identity: ClockIdentity([9, 8, 7, 6, 5, 4, 3, 2]),
        grandmaster_clock_quality: Default::default(),
        grandmaster_priority_1: 128,
        grandmaster_priority_2: 128,
    };
    let tp = statime::config::TimePropertiesDS::new_ptp_time(
        Some(37),
        LeapIndicator::NoLeap,
        false,
        false,
        TimeSource::Gnss,
    );
    let grandmaster = sync_body(v1_header()).grandmaster;
    let port = PortIdentity {
        clock_identity: ds.clock_identity,
        port_number: 1,
    };
    let m = MessageV1::delay_req(&ds, &parent, &tp, 3, grandmaster, port, 9);
    assert!(m.is_event());
    match m.body {
        MessageBody::DelayReq(b) => {
            assert_eq!(b.header, m.header);
            assert_eq!(b.current_utc_offset, 37);
            assert!(b.utc_reasonable);
            assert_eq!(b.grandmaster, grandmaster);
            assert_eq!(b.local_clock_variance, -16);
            assert_eq!(b.local_steps_removed, 3);
            assert_eq!(b.local_clock_identifier, *b"DFLT");
            assert_eq!(b.parent_uuid, [9, 8, 7, 6, 5, 4]);
            assert_eq!(b.parent_port_field, 2);
            assert_eq!(b.sync_interval, 0x7f);
        }
        _ => panic!("expected a delay request"),
    }
    assert_eq!(m.header.sequence_id, 9);
    let mut buffer = [0u8; 124];
    assert_eq!(m.serialize(&mut buffer), Ok(124));
    assert_eq!(MessageV1::deserialize(&buffer), Ok(m.clone()));

    let arbitrary = statime::config::TimePropertiesDS::new_arbitrary_time(false, false, TimeSource::Gnss);
    let m = MessageV1::delay_req(&ds, &parent, &arbitrary, 3, grandmaster, port, 9);
    match m.body {
        MessageBody::DelayReq(b) => {
            assert_eq!(b.current_utc_offset, 0);
            assert!(!b.utc_reasonable);
        }
        _ => panic!("expected a delay request"),
    }
}

#[test]
fn try_from_bytes() {
    assert_eq!(ControlField::try_from(1u8), Ok(ControlField::DelayReq));
    assert_eq!(ControlField::try_from(4u8), Err(EnumConversionError));
    assert_eq!(PortType::try_from(2u8), Ok(PortType::General));
    assert_eq!(PortType::try_from(0u8), Err(EnumConversionError));
    assert_eq!(MessageType::try_from(0xdu8), Ok(MessageType::Management));
    assert_eq!(MessageType::try_from(0xeu8), Err(EnumConversionError));
}
