use statime::crypto::{
    Mac, NoSpaceError, SecurityAssociation, SecurityAssociationProvider, SecurityPolicy,
    SenderIdentificaton,
};
use statime::datastructures::common::PortIdentity;
use statime::datastructures::messages::signing::{
    add_signature, authentication_request, authentication_tlv, signature_tlv, signing_input,
    verify_signed, AuthenticationRequest,
};
use statime::datastructures::messages::MessageType;

/// A toy code: the sum of the bytes, big-endian in two bytes.
struct SumMac;

fn checksum(data: &[u8]) -> [u8; 2] {
    let s = data.iter().fold(0u16, |a, b| a.wrapping_add(*b as u16));
    s.to_be_bytes()
}

impl Mac for SumMac {
    fn output_size(&self) -> usize {
        2
    }

    fn verify(&self, data: &[u8], mac: &[u8]) -> bool {
        mac == checksum(data)
    }

    fn sign(&self, data: &[u8], output_buffer: &mut [u8]) -> Result<usize, NoSpaceError> {
        output_buffer[..2].copy_from_slice(&checksum(data));
        Ok(2)
    }
}

struct TestAssociation {
    ignore_correction: bool,
}

impl SecurityAssociation for TestAssociation {
    fn policy_data(&self) -> SecurityPolicy {
        SecurityPolicy {
            ignore_correction: self.ignore_correction,
        }
    }

    fn mac(&self, key_id: u32) -> Option<&dyn Mac> {
        if key_id == 7 {
            Some(&SumMac)
        } else {
            None
        }
    }

    fn register_sequence_id(
        &mut self,
        _key_id: u32,
        _sender: SenderIdentificaton,
        _sequence_id: u16,
    ) -> bool {
        true
    }

    fn signing_mac(&self) -> (u32, &dyn Mac) {
        (7, &SumMac)
    }
}

struct TestProvider {
    ignore_correction: bool,
}

impl SecurityAssociationProvider for TestProvider {
    type Association<'a> = TestAssociation;

    fn lookup(&self, spp: u8) -> Option<Self::Association<'_>> {
        if spp == 1 {
            Some(TestAssociation {
                ignore_correction: self.ignore_correction,
            })
        } else {
            None
        }
    }
}

/// A header of 34 bytes with a correction field, then one management TLV.
fn unsigned_message() -> Vec<u8> {
    let mut m: Vec<u8> = (0..34).collect();
    m.extend_from_slice(&[0, 1, 0, 6, 9, 9, 9, 9, 9, 9]);
    m
}

fn sender() -> PortIdentity {
    PortIdentity {
        clock_identity: statime::config::ClockIdentity([4; 8]),
        port_number: 1,
    }
}

#[test]
fn authentication_tlv_wire_format() {
    assert_eq!(
        authentication_tlv(1, 0x01020304, &[0xaa, 0xbb]),
        vec![0x80, 0x09, 0, 8, 1, 0, 1, 2, 3, 4, 0xaa, 0xbb]
    );
}

#[test]
fn authentication_request_is_found_after_other_tlvs() {
    let mut m = unsigned_message();
    assert_eq!(authentication_request(&m, 34), None);
    m.extend_from_slice(&authentication_tlv(1, 7, &[0, 0]));
    assert_eq!(
        authentication_request(&m, 34),
        Some(AuthenticationRequest {
            tlv_start: 44,
            value_len: 8,
            spp: 1,
            key_id: 7,
        })
    );
    // optional parameters are not supported
    m[49] = 1;
    assert_eq!(authentication_request(&m, 34), None);
}

#[test]
fn signed_message_verifies() {
    let provider = TestProvider {
        ignore_correction: false,
    };
    let m = unsigned_message();
    let tlv = add_signature(&provider, 1, &m).unwrap();
    assert_eq!(tlv.len(), 12);
    let mut signed = m.clone();
    signed.extend_from_slice(&tlv);
    let ok = verify_signed(&provider, &signed, 34, MessageType::Announce, sender(), 5);
    assert!(ok);

    // any change of the covered bytes is caught
    let mut tampered = signed.clone();
    tampered[20] ^= 1;
    assert!(!verify_signed(&provider, &tampered, 34, MessageType::Announce, sender(), 5));
    // also in the correction field, which this policy covers
    let mut tampered = signed.clone();
    tampered[9] ^= 1;
    assert!(!verify_signed(&provider, &tampered, 34, MessageType::Announce, sender(), 5));

    // an unsigned message is rejected
    assert!(!verify_signed(&provider, &m, 34, MessageType::Announce, sender(), 5));
}

#[test]
fn ignored_correction_field_is_not_covered() {
    let provider = TestProvider {
        ignore_correction: true,
    };
    let m = unsigned_message();
    let mut signed = m.clone();
    signed.extend_from_slice(&add_signature(&provider, 1, &m).unwrap());
    signed[9] ^= 1;
    assert!(verify_signed(&provider, &signed, 34, MessageType::Sync, sender(), 1));
}

#[test]
fn unknown_association_or_key_is_rejected() {
    let provider = TestProvider {
        ignore_correction: false,
    };
    let m = unsigned_message();
    assert_eq!(add_signature(&provider, 2, &m), Err(NoSpaceError));

    let mut other_spp = m.clone();
    other_spp.extend_from_slice(&authentication_tlv(2, 7, &[0, 0]));
    assert!(!verify_signed(&provider, &other_spp, 34, MessageType::Sync, sender(), 1));

    let mut other_key = m.clone();
    other_key.extend_from_slice(&authentication_tlv(1, 8, &[0, 0]));
    assert!(!verify_signed(&provider, &other_key, 34, MessageType::Sync, sender(), 1));

    // a value too short for the integrity check value of the key
    let mut short = m.clone();
    short.extend_from_slice(&authentication_tlv(1, 7, &[0]));
    assert!(!verify_signed(&provider, &short, 34, MessageType::Sync, sender(), 1));
}

/// A provider that has an association for every pointer, with the policy it
/// was made with.
struct AnyProvider(SecurityPolicy);

struct AnyAssociation(SecurityPolicy);

impl SecurityAssociation for AnyAssociation {
    fn policy_data(&self) -> SecurityPolicy {
        self.0
    }

    fn mac(&self, _key_id: u32) -> Option<&dyn Mac> {
        Some(&SumMac)
    }

    fn register_sequence_id(
        &mut self,
        _key_id: u32,
        _sender: SenderIdentificaton,
        _sequence_id: u16,
    ) -> bool {
        true
    }

    fn signing_mac(&self) -> (u32, &dyn Mac) {
        (0, &SumMac)
    }
}

impl SecurityAssociationProvider for AnyProvider {
    type Association<'a> = AnyAssociation;

    fn lookup(&self, _spp: u8) -> Option<Self::Association<'_>> {
        Some(AnyAssociation(self.0))
    }
}

/// A sync message on the wire: a header of 34 bytes and a timestamp of 10.
fn sync_message() -> Vec<u8> {
    let mut m = vec![0u8; 44];
    m[0] = 0x10;
    m[1] = 0x02;
    m[31] = 1;
    m
}

fn sign(provider: &AnyProvider) -> Vec<u8> {
    let mut message = sync_message();
    let tlv = add_signature(provider, 0, &message).unwrap();
    message.extend_from_slice(&tlv);
    message
}

#[test]
fn test_signing_ignoring_correction() {
    let provider = AnyProvider(SecurityPolicy {
        ignore_correction: true,
    });
    let mut message_buffer = sign(&provider);
    let message_len = message_buffer.len();

    // Modify correction field
    message_buffer[9] = message_buffer[9].wrapping_add(9);
    assert!(verify_signed(&provider, &message_buffer, 44, MessageType::Sync, PortIdentity::default(), 1));

    // Modify message
    message_buffer[message_len - 1] = message_buffer[message_len - 1].wrapping_add(5);
    assert!(!verify_signed(&provider, &message_buffer, 44, MessageType::Sync, PortIdentity::default(), 1));
}

#[test]
fn test_signing() {
    let provider = AnyProvider(SecurityPolicy {
        ignore_correction: false,
    });
    let mut message_buffer = sign(&provider);
    assert!(verify_signed(&provider, &message_buffer, 44, MessageType::Sync, PortIdentity::default(), 1));

    // Modify correction field
    message_buffer[9] = message_buffer[9].wrapping_add(9);
    assert!(!verify_signed(&provider, &message_buffer, 44, MessageType::Sync, PortIdentity::default(), 1));
}

/// An association that refuses every sequence id, as a replay check does
/// for one it has seen.
struct ReplayAssociation;

impl SecurityAssociation for ReplayAssociation {
    fn policy_data(&self) -> SecurityPolicy {
        SecurityPolicy {
            ignore_correction: false,
        }
    }

    fn mac(&self, _key_id: u32) -> Option<&dyn Mac> {
        Some(&SumMac)
    }

    fn register_sequence_id(
        &mut self,
        _key_id: u32,
        _sender: SenderIdentificaton,
        _sequence_id: u16,
    ) -> bool {
        false
    }

    fn signing_mac(&self) -> (u32, &dyn Mac) {
        (0, &SumMac)
    }
}

struct ReplayProvider;

impl SecurityAssociationProvider for ReplayProvider {
    type Association<'a> = ReplayAssociation;

    fn lookup(&self, _spp: u8) -> Option<Self::Association<'_>> {
        Some(ReplayAssociation)
    }
}

#[test]
fn replayed_sequence_id_is_rejected() {
    let provider = ReplayProvider;
    let mut message = sync_message();
    let tlv = add_signature(&provider, 0, &message).unwrap();
    message.extend_from_slice(&tlv);
    assert!(!verify_signed(&provider, &message, 44, MessageType::Sync, PortIdentity::default(), 1));
}

#[test]
fn signing_input_covers_the_message_and_the_tlv_head() {
    let m = sync_message();
    let mut expected = m.clone();
    expected.extend_from_slice(&[0x80, 0x09, 0, 8, 3, 0, 0, 0, 0, 7]);
    assert_eq!(signing_input(&m, 3, 7, 2, false), expected);
    // the correction field is left out when the policy says so
    let mut with_correction = m.clone();
    with_correction[8..16].copy_from_slice(&[1; 8]);
    assert_eq!(signing_input(&with_correction, 3, 7, 2, true), expected);
    assert_ne!(signing_input(&with_correction, 3, 7, 2, false), expected);
}

#[test]
fn signature_tlv_takes_the_key_output() {
    let mut output = [0u8; 1018];
    output[0] = 0xaa;
    output[1] = 0xbb;
    output[2] = 0xcc;
    assert_eq!(
        signature_tlv(44, 3, 7, 2, &output),
        Ok(vec![0x80, 0x09, 0, 8, 3, 0, 0, 0, 0, 7, 0xaa, 0xbb])
    );
    // 44 + 10 + 970 bytes fill a message exactly; one more does not fit
    assert!(signature_tlv(44, 3, 7, 970, &output).is_ok());
    assert_eq!(signature_tlv(44, 3, 7, 971, &output), Err(NoSpaceError));
}
