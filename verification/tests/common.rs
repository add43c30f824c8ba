use statime::config::{ClockIdentity, LeapIndicator, SdoId, TimePropertiesDS, TimeSource};
use fixed::types::I48F16;
use statime::datastructures::common::{
    PortIdentity, TimeInterval, TlvType, WireTimestamp, WireTimestampV1, TLV,
};
use statime::datastructures::WireFormatError;

#[test]
fn clock_identity_timestamp_wireformat() {
    let representations = [(
        [0x01, 0x02, 0x03, 0x04, 0x05, 0x06, 0x07, 0x08u8],
        ClockIdentity([0x01, 0x02, 0x03, 0x04, 0x05, 0x06, 0x07, 0x08]),
    )];

    for (byte_representation, object_representation) in representations {
        // Test the serialization output
        let mut serialization_buffer = [0; 8];
        object_representation
            .serialize(&mut serialization_buffer)
            .unwrap();
        assert_eq!(serialization_buffer, byte_representation);

        // Test the deserialization output
        let deserialized_data = ClockIdentity::deserialize(&byte_representation).unwrap();
        assert_eq!(deserialized_data, object_representation);
    }
}

#[test]
fn from_mac() {
    let mac = [1, 2, 3, 4, 5, 6];
    let id = ClockIdentity::from_mac_address(mac);
    assert_eq!(id, ClockIdentity([1, 2, 3, 4, 5, 6, 0, 0]));
}

#[test]
fn clock_identity_byte_order() {
    let a = ClockIdentity([1, 2, 3, 4, 5, 6, 7, 8]);
    let b = ClockIdentity([1, 2, 3, 4, 5, 6, 7, 9]);
    assert_eq!(a.byte_order(&b), -1);
    assert_eq!(b.byte_order(&a), 1);
    assert_eq!(a.byte_order(&a), 0);
    assert!(a.same_as(&a));
    assert!(!a.same_as(&b));
}

#[test]
fn port_identity_round_trip() {
    let id = PortIdentity {
        clock_identity: ClockIdentity([9, 8, 7, 6, 5, 4, 3, 2]),
        port_number: 0x1234,
    };
    let mut buffer = [0u8; 10];
    id.serialize(&mut buffer).unwrap();
    assert_eq!(buffer, [9, 8, 7, 6, 5, 4, 3, 2, 0x12, 0x34]);
    assert_eq!(PortIdentity::deserialize(&buffer), Ok(id));
}

#[test]
fn wire_timestamp_round_trip() {
    let ts = WireTimestamp {
        seconds: 1169232218,
        nanos: 174389936,
    };
    let mut buffer = [0u8; 10];
    ts.serialize(&mut buffer).unwrap();
    assert_eq!(buffer, [0x00, 0x00, 0x45, 0xb1, 0x11, 0x5a, 0x0a, 0x64, 0xfa, 0xb0]);
    assert_eq!(WireTimestamp::deserialize(&buffer), Ok(ts));
}

#[test]
fn wire_timestamp_order() {
    let a = WireTimestamp { seconds: 5, nanos: 10 };
    let b = WireTimestamp { seconds: 5, nanos: 11 };
    let c = WireTimestamp { seconds: 6, nanos: 0 };
    assert_eq!(a.time_order(&b), -1);
    assert_eq!(c.time_order(&b), 1);
    assert_eq!(b.time_order(&b), 0);
}

#[test]
fn wire_timestamp_v1_round_trip() {
    let ts = WireTimestampV1 {
        seconds: 0x01020304,
        nanos: 0x05060708,
    };
    let mut buffer = [0u8; 8];
    ts.serialize(&mut buffer).unwrap();
    assert_eq!(buffer, [1, 2, 3, 4, 5, 6, 7, 8]);
    assert_eq!(WireTimestampV1::deserialize(&buffer), Ok(ts));
}

#[test]
fn tlv_type_values() {
    assert_eq!(TlvType::Management.to_primitive(), 0x0001);
    assert_eq!(TlvType::from_primitive(0x0001), TlvType::Management);
    assert_eq!(TlvType::from_primitive(TlvType::PathTrace.to_primitive()), TlvType::PathTrace);
    assert_eq!(TlvType::from_primitive(0x2000), TlvType::Legacy);
    assert_eq!(TlvType::from_primitive(0x1234), TlvType::Reserved);
    assert_eq!(TlvType::from_primitive(0x7f10), TlvType::Experimental);
    assert_eq!(TlvType::Authentication.to_primitive(), 0x8009);
}

#[test]
fn tlv_deserialize_errors() {
    assert_eq!(TLV::deserialize(&[0, 1, 0, 2]), Err(WireFormatError::BufferTooShort));
    assert_eq!(TLV::deserialize(&[0, 1, 0, 1, 7]), Err(WireFormatError::SliceError));
    let t = TLV::default();
    assert_eq!(t.tlv_type, TlvType::Management);
    assert_eq!(t.wire_size(), 4);
}

#[test]
fn sdo_id_holds_twelve_bits() {
    assert_eq!(SdoId::new(0xfff).map(|s| s.value()), Some(0xfff));
    assert!(SdoId::new(0x1000).is_none());
    assert_eq!(SdoId::default().value(), 0);
}

#[test]
fn time_properties_data_set() {
    let ptp = TimePropertiesDS::new_ptp_time(Some(37), LeapIndicator::Leap61, true, false, TimeSource::Gnss);
    assert!(ptp.is_ptp());
    assert_eq!(ptp.utc_offset(), Some(37));
    assert_eq!(ptp.leap_indicator(), LeapIndicator::Leap61);
    let arb = TimePropertiesDS::new_arbitrary_time(false, true, TimeSource::Ptp);
    assert!(!arb.is_ptp());
    assert_eq!(arb.utc_offset(), None);
    assert_eq!(arb.leap_indicator(), LeapIndicator::NoLeap);
}

#[test]
fn time_interval_wireformat() {
    let representations = [
        (
            [0x00, 0x00, 0x00, 0x00, 0x00, 0x02, 0x80, 0x00u8],
            TimeInterval(I48F16::from_num(2.5f64)),
        ),
        (
            [0x00, 0x00, 0x00, 0x00, 0x00, 0x00, 0x00, 0x01u8],
            TimeInterval(I48F16::from_num(1.0f64 / u16::MAX as f64)),
        ),
        (
            [0xff, 0xff, 0xff, 0xff, 0xff, 0xff, 0x00, 0x00u8],
            TimeInterval(I48F16::from_num(-1.0f64)),
        ),
    ];

    for (byte_representation, object_representation) in representations {
        // Test the serialization output
        let mut serialization_buffer = [0; 8];
        object_representation
            .serialize(&mut serialization_buffer)
            .unwrap();
        assert_eq!(serialization_buffer, byte_representation);

        // Test the deserialization output
        let deserialized_data = TimeInterval::deserialize(&byte_representation).unwrap();
        assert_eq!(deserialized_data, object_representation);
    }
}

#[test]
fn time_interval_size_and_round_trip() {
    let t = TimeInterval(I48F16::from_bits(-0x0123_4567_89ab_cdef));
    assert_eq!(t.wire_size(), 8);
    let mut buffer = [0u8; 9];
    t.serialize(&mut buffer).unwrap();
    assert_eq!(buffer[8], 0);
    assert_eq!(TimeInterval::deserialize(&buffer), Ok(t));
    assert_eq!(TimeInterval::default(), TimeInterval(I48F16::from_bits(0)));
}
