//! Authentication TLVs (IEEE1588-2019 section 16.14.3): where a message
//! carries one, which bytes its integrity check value covers, and how a
//! signed message is checked and signed.

use vstd::prelude::*;

use crate::{
    crypto::{
        NoSpaceError, SecurityAssociation, SecurityAssociationProvider, SenderIdentificaton,
    },
    datastructures::{
        common::PortIdentity,
        messages::{MessageType, MAX_DATA_LEN},
        wire::{be_u16, be_u32, get_u16, get_u32, lemma_u16_roundtrip, lemma_u32_roundtrip, u16_at, u32_at},
    },
};

verus! {

/// The value of the type of an authentication TLV on the wire.
pub const AUTHENTICATION_TLV_TYPE: u16 = 0x8009;

/// The first authentication TLV among the TLVs that follow the header and
/// the body of a message, the TLVs starting at `at` in `message`: the
/// position of the TLV and the length of its value. The TLVs are read one
/// after the other, four bytes of type and length and then the value; the
/// reading ends without one at the end of the message, or at a TLV whose
/// value does not fit in it.
pub open spec fn first_authentication_tlv(message: Seq<u8>, at: int) -> Option<(int, int)>
    decreases message.len() - at,
{
    if at < 0 || at + 4 > message.len() {
        None
    } else {
        let len = u16_at(message, at + 2) as int;
        if at + 4 + len > message.len() {
            None
        } else if u16_at(message, at) == AUTHENTICATION_TLV_TYPE {
            Some((at, len))
        } else {
            first_authentication_tlv(message, at + 4 + len)
        }
    }
}

/// What an authentication TLV asks for: the security parameter pointer and
/// the key that signed the message, with where the TLV stands.
#[derive(Debug, Clone, Copy, PartialEq, Eq)]
pub struct AuthenticationRequest {
    /// Position of the TLV in the message.
    pub tlv_start: usize,
    /// Length of the value of the TLV.
    pub value_len: usize,
    /// The security parameter pointer: which security association applies.
    pub spp: u8,
    /// The key of the association that signed the message.
    pub key_id: u32,
}

/// The request of the first authentication TLV of the message whose TLVs
/// start at `suffix_start`: none when there is no such TLV, when its value
/// is shorter than the six bytes of pointer, parameters and key id, or when
/// its parameters ask for any of the optional fields, which are not
/// supported.
pub open spec fn spec_authentication_request(message: Seq<u8>, suffix_start: int) -> Option<
    AuthenticationRequest,
> {
    match first_authentication_tlv(message, suffix_start) {
        Some((at, len)) => if len < 6 || message[at + 5] != 0 {
            None
        } else {
            Some(
                AuthenticationRequest {
                    tlv_start: at as usize,
                    value_len: len as usize,
                    spp: message[at + 4],
                    key_id: u32_at(message, at + 6),
                },
            )
        },
        None => None,
    }
}

/// Finds the first authentication TLV of a message whose TLVs start at
/// `suffix_start`, and reads what it asks for.
pub fn authentication_request(message: &[u8], suffix_start: usize) -> (r: Option<
    AuthenticationRequest,
>)
    requires
        suffix_start <= message@.len(),
    ensures
        r == spec_authentication_request(message@, suffix_start as int),
{
    let mut at = suffix_start;
    loop
        invariant
            suffix_start <= at <= message@.len(),
            first_authentication_tlv(message@, at as int) == first_authentication_tlv(
                message@,
                suffix_start as int,
            ),
        decreases message@.len() - at,
    {
        if message.len() - at < 4 {
            return None;
        }
        let len = get_u16(message, at + 2) as usize;
        if message.len() - at - 4 < len {
            return None;
        }
        if get_u16(message, at) == AUTHENTICATION_TLV_TYPE {
            if len < 6 || message[at + 5] != 0 {
                return None;
            }
            return Some(
                AuthenticationRequest {
                    tlv_start: at,
                    value_len: len,
                    spp: message[at + 4],
                    key_id: get_u32(message, at + 6),
                },
            );
        }
        at = at + 4 + len;
    }
}

/// The bytes that the integrity check value of an authentication TLV at
/// `tlv_start` covers: the message up to and including the pointer, the
/// parameters and the key id of the TLV, with the correction field (bytes
/// 8 to 16 of the header) read as zeros when the security policy leaves it
/// out.
pub open spec fn spec_signed_data(message: Seq<u8>, tlv_start: int, ignore_correction: bool) -> Seq<
    u8,
> {
    let data = message.take(tlv_start + 10);
    if ignore_correction {
        Seq::new(data.len(), |i: int| if 8 <= i < 16 { 0u8 } else { data[i] })
    } else {
        data
    }
}

/// The bytes that the integrity check value of an authentication TLV at
/// `tlv_start` covers.
pub fn signed_data(message: &[u8], tlv_start: usize, ignore_correction: bool) -> (r: Vec<u8>)
    requires
        16 <= tlv_start + 10 <= message@.len(),
    ensures
        r@ == spec_signed_data(message@, tlv_start as int, ignore_correction),
{
    assert(message@.len() == message.len());
    let n = tlv_start + 10;
    let mut data: Vec<u8> = Vec::new();
    let mut i: usize = 0;
    while i < n
        invariant
            n == tlv_start + 10,
            n <= message@.len(),
            i <= n,
            data@.len() == i,
            forall|k: int|
                0 <= k < i ==> data@[k] == spec_signed_data(message@, tlv_start as int, ignore_correction)[k],
        decreases n - i,
    {
        if ignore_correction && 8 <= i && i < 16 {
            data.push(0u8);
        } else {
            data.push(message[i]);
        }
        i = i + 1;
    }
    assert(data@ =~= spec_signed_data(message@, tlv_start as int, ignore_correction));
    data
}

/// The integrity check value of an authentication request, for a key whose
/// values take `output_size` bytes: the bytes after the key id, when the TLV
/// holds that many.
pub open spec fn spec_icv(
    message: Seq<u8>,
    request: AuthenticationRequest,
    output_size: int,
) -> Option<Seq<u8>> {
    if request.value_len < 6 + output_size {
        None
    } else {
        Some(message.subrange(request.tlv_start + 10, request.tlv_start + 10 + output_size))
    }
}

/// The integrity check value of an authentication request.
pub fn icv(message: &[u8], request: &AuthenticationRequest, output_size: usize) -> (r: Option<
    Vec<u8>,
>)
    requires
        request.tlv_start + 4 + request.value_len <= message@.len(),
    ensures
        match r {
            Some(v) => spec_icv(message@, *request, output_size as int) == Some(v@),
            None => spec_icv(message@, *request, output_size as int) is None,
        },
{
    if request.value_len < 6 || request.value_len - 6 < output_size {
        return None;
    }
    assert(message@.len() == message.len());
    let start = request.tlv_start + 10;
    let mut v: Vec<u8> = Vec::new();
    let mut i: usize = 0;
    while i < output_size
        invariant
            start == request.tlv_start + 10,
            start + output_size <= message@.len(),
            message@.len() == message.len(),
            i <= output_size,
            v@ == message@.subrange(start as int, start + i),
        decreases output_size - i,
    {
        v.push(message[start + i]);
        assert(message@.subrange(start as int, start + i + 1) =~= message@.subrange(
            start as int,
            start + i,
        ).push(message@[start + i]));
        i = i + 1;
    }
    Some(v)
}

/// Checks that a message is signed by a key that the provider knows, and
/// registers its sequence id with the security association. The message is
/// given as its bytes on the wire, whose TLVs start at `suffix_start`, with
/// the type, the sender and the sequence id of its header.
///
/// It is rejected when it is longer than a message may be, when it carries
/// no usable authentication TLV (see [`spec_authentication_request`]), when
/// the provider knows neither the association nor the key, when the TLV is
/// too short for the integrity check value of the key, and when the key
/// does not confirm that value over [`spec_signed_data`]. A message that
/// passes these checks is accepted exactly when the association accepts its
/// sequence id, which guards against replays. What the provider, its keys
/// and its associations answer is theirs to decide.
pub fn verify_signed<P: SecurityAssociationProvider>(
    provider: &P,
    message: &[u8],
    suffix_start: usize,
    message_type: MessageType,
    source_port_identity: PortIdentity,
    sequence_id: u16,
) -> (r: bool)
    requires
        34 <= suffix_start <= message@.len(),
    ensures
        r ==> message@.len() <= MAX_DATA_LEN,
        r ==> spec_authentication_request(message@, suffix_start as int) is Some,
{
    if message.len() > MAX_DATA_LEN {
        return false;
    }
    let request = match authentication_request(message, suffix_start) {
        Some(request) => request,
        None => return false,
    };
    proof {
        lemma_first_authentication_tlv_in_message(message@, suffix_start as int);
    }
    let mut association = match provider.lookup(request.spp) {
        Some(association) => association,
        None => return false,
    };
    let key = match association.mac(request.key_id) {
        Some(key) => key,
        None => return false,
    };
    let icv = match icv(message, &request, key.output_size()) {
        Some(icv) => icv,
        None => return false,
    };
    let data = signed_data(message, request.tlv_start, association.policy_data().ignore_correction);
    if !key.verify(data.as_slice(), icv.as_slice()) {
        return false;
    }
    association.register_sequence_id(
        request.key_id,
        SenderIdentificaton { message_type, source_port_id: source_port_identity },
        sequence_id,
    )
}

/// An authentication TLV on the wire: its type and length, then the
/// pointer `spp`, no optional parameters, the key id and the integrity
/// check value.
pub open spec fn spec_authentication_tlv(spp: u8, key_id: u32, icv: Seq<u8>) -> Seq<u8> {
    be_u16(AUTHENTICATION_TLV_TYPE) + be_u16((6 + icv.len()) as u16) + seq![spp, 0u8] + be_u32(key_id)
        + icv
}

/// Appends the big-endian bytes of `x`.
fn push_u16(v: &mut Vec<u8>, x: u16)
    ensures
        final(v)@ == old(v)@ + be_u16(x),
{
    v.push((x >> 8u16) as u8);
    v.push(x as u8);
    assert(final(v)@ =~= old(v)@ + be_u16(x));
}

/// An authentication TLV on the wire.
pub fn authentication_tlv(spp: u8, key_id: u32, icv: &[u8]) -> (r: Vec<u8>)
    requires
        6 + icv@.len() <= u16::MAX,
    ensures
        r@ == spec_authentication_tlv(spp, key_id, icv@),
{
    let mut v: Vec<u8> = Vec::new();
    push_u16(&mut v, AUTHENTICATION_TLV_TYPE);
    push_u16(&mut v, (6 + icv.len()) as u16);
    v.push(spp);
    v.push(0u8);
    v.push((key_id >> 24u32) as u8);
    v.push((key_id >> 16u32) as u8);
    v.push((key_id >> 8u32) as u8);
    v.push(key_id as u8);
    let ghost head = v@;
    assert(head =~= be_u16(AUTHENTICATION_TLV_TYPE) + be_u16((6 + icv@.len()) as u16) + seq![spp, 0u8]
        + be_u32(key_id));
    let mut i: usize = 0;
    while i < icv.len()
        invariant
            i <= icv@.len(),
            v@ == head + icv@.take(i as int),
        decreases icv.len() - i,
    {
        v.push(icv[i]);
        assert(icv@.take(i + 1) =~= icv@.take(i as int).push(icv@[i as int]));
        i = i + 1;
    }
    assert(icv@.take(icv@.len() as int) =~= icv@);
    v
}

/// The bytes from `at` to the end of `s` are TLVs one after the other, none
/// of them an authentication TLV.
pub open spec fn plain_tlvs(s: Seq<u8>, at: int) -> bool
    decreases s.len() - at,
{
    if at < 0 || at > s.len() {
        false
    } else if at == s.len() {
        true
    } else if at + 4 > s.len() {
        false
    } else {
        let len = u16_at(s, at + 2) as int;
        at + 4 + len <= s.len() && u16_at(s, at) != AUTHENTICATION_TLV_TYPE && plain_tlvs(
            s,
            at + 4 + len,
        )
    }
}

/// After plain TLVs, the authentication TLV appended to them is the first
/// one found.
proof fn lemma_first_after_plain(prefix: Seq<u8>, at: int, spp: u8, key_id: u32, icv: Seq<u8>)
    requires
        plain_tlvs(prefix, at),
        6 + icv.len() <= u16::MAX,
    ensures
        first_authentication_tlv(prefix + spec_authentication_tlv(spp, key_id, icv), at) == Some(
            (prefix.len() as int, 6 + icv.len() as int),
        ),
    decreases prefix.len() - at,
{
    let m = prefix + spec_authentication_tlv(spp, key_id, icv);
    let p = prefix.len() as int;
    if at == p {
        assert(m.subrange(p, p + 2) =~= be_u16(AUTHENTICATION_TLV_TYPE));
        assert(m.subrange(p + 2, p + 4) =~= be_u16((6 + icv.len()) as u16));
        lemma_u16_roundtrip(AUTHENTICATION_TLV_TYPE, m, p);
        lemma_u16_roundtrip((6 + icv.len()) as u16, m, p + 2);
    } else {
        assert(m[at] == prefix[at] && m[at + 1] == prefix[at + 1] && m[at + 2] == prefix[at + 2]
            && m[at + 3] == prefix[at + 3]);
        assert(u16_at(m, at) == u16_at(prefix, at));
        assert(u16_at(m, at + 2) == u16_at(prefix, at + 2));
        let len = u16_at(prefix, at + 2) as int;
        lemma_first_after_plain(prefix, at + 4 + len, spp, key_id, icv);
    }
}

/// A signature reads back: after TLVs that hold no authentication TLV, an
/// authentication TLV with pointer `spp`, key `key_id` and integrity check
/// value `icv` is the request found, and `icv` is what is checked for a key
/// whose values take as many bytes.
pub proof fn lemma_authentication_read_back(prefix: Seq<u8>, at: int, spp: u8, key_id: u32, icv: Seq<u8>)
    requires
        0 <= at <= prefix.len(),
        6 + icv.len() <= u16::MAX,
        prefix.len() + 10 + icv.len() <= usize::MAX,
        plain_tlvs(prefix, at),
    ensures
        ({
            let m = prefix + spec_authentication_tlv(spp, key_id, icv);
            let request = AuthenticationRequest {
                tlv_start: prefix.len() as usize,
                value_len: (6 + icv.len()) as usize,
                spp,
                key_id,
            };
            &&& spec_authentication_request(m, at) == Some(request)
            &&& spec_icv(m, request, icv.len() as int) == Some(icv)
        }),
{
    let m = prefix + spec_authentication_tlv(spp, key_id, icv);
    let p = prefix.len() as int;
    lemma_first_after_plain(prefix, at, spp, key_id, icv);
    assert(m[p + 4] == spp);
    assert(m[p + 5] == 0);
    assert(m.subrange(p + 6, p + 10) =~= be_u32(key_id));
    lemma_u32_roundtrip(key_id, m, p + 6);
    assert(m.subrange(p + 10, p + 10 + icv.len()) =~= icv);
}

/// Whether an authentication TLV whose integrity check value takes `n`
/// bytes fits after a message of `message_len` bytes.
pub open spec fn signature_fits(message_len: int, n: int) -> bool {
    message_len + 10 + n <= MAX_DATA_LEN
}

/// The bytes that a signature of `message` covers: the message, then the
/// first ten bytes of its authentication TLV (type, length, pointer,
/// parameters and key id) for an integrity check value of `n` bytes, with
/// the correction field read as zeros when the policy leaves it out.
pub open spec fn spec_signing_input(
    message: Seq<u8>,
    spp: u8,
    key_id: u32,
    n: nat,
    ignore_correction: bool,
) -> Seq<u8> {
    spec_signed_data(
        message + spec_authentication_tlv(spp, key_id, Seq::new(n, |i: int| 0u8)).take(10),
        message.len() as int,
        ignore_correction,
    )
}

/// The bytes that a signature of `message` covers, for a key `key_id` whose
/// integrity check values take `n` bytes.
pub fn signing_input(message: &[u8], spp: u8, key_id: u32, n: usize, ignore_correction: bool) -> (d:
    Vec<u8>)
    requires
        16 <= message@.len(),
        signature_fits(message@.len() as int, n as int),
    ensures
        d@ == spec_signing_input(message@, spp, key_id, n as nat, ignore_correction),
{
    let ghost zeros = Seq::new(n as nat, |i: int| 0u8);
    let ghost head = spec_authentication_tlv(spp, key_id, zeros).take(10);
    let mut unsigned: Vec<u8> = Vec::new();
    let mut i: usize = 0;
    while i < message.len()
        invariant
            i <= message@.len(),
            unsigned@ == message@.take(i as int),
        decreases message.len() - i,
    {
        unsigned.push(message[i]);
        assert(message@.take(i + 1) =~= message@.take(i as int).push(message@[i as int]));
        i = i + 1;
    }
    assert(message@.take(message@.len() as int) =~= message@);
    let ghost before = unsigned@;
    let len = (6 + n) as u16;
    unsigned.push((AUTHENTICATION_TLV_TYPE >> 8u16) as u8);
    unsigned.push(AUTHENTICATION_TLV_TYPE as u8);
    unsigned.push((len >> 8u16) as u8);
    unsigned.push(len as u8);
    unsigned.push(spp);
    unsigned.push(0u8);
    unsigned.push((key_id >> 24u32) as u8);
    unsigned.push((key_id >> 16u32) as u8);
    unsigned.push((key_id >> 8u32) as u8);
    unsigned.push(key_id as u8);
    assert(zeros.len() == n);
    assert(unsigned@ =~= message@ + head);
    signed_data(unsigned.as_slice(), message.len(), ignore_correction)
}

/// The authentication TLV of a signature after a message of `message_len`
/// bytes: pointer `spp`, key `key_id` and the first `n` bytes of the key's
/// `output` as integrity check value. It does not fit when the message has
/// no room left for it.
pub fn signature_tlv(message_len: usize, spp: u8, key_id: u32, n: usize, output: &[u8]) -> (r:
    Result<Vec<u8>, NoSpaceError>)
    requires
        16 <= message_len,
        output@.len() + 26 >= MAX_DATA_LEN,
    ensures
        !signature_fits(message_len as int, n as int) <==> r is Err,
        r matches Ok(t) ==> t@ == spec_authentication_tlv(spp, key_id, output@.take(n as int)),
{
    if message_len > MAX_DATA_LEN || n > MAX_DATA_LEN - message_len || MAX_DATA_LEN - message_len
        - n < 10 {
        return Err(NoSpaceError);
    }
    let mut icv: Vec<u8> = Vec::new();
    let mut i: usize = 0;
    while i < n
        invariant
            i <= n,
            n <= output@.len(),
            icv@ == output@.take(i as int),
        decreases n - i,
    {
        icv.push(output[i]);
        assert(output@.take(i + 1) =~= output@.take(i as int).push(output@[i as int]));
        i = i + 1;
    }
    Ok(authentication_tlv(spp, key_id, icv.as_slice()))
}

/// Signs a message with the signing key of the security association `spp`
/// of the provider: the authentication TLV to append to the wire bytes
/// `message` of the message, whose header already counts the TLV in the
/// length of the message.
///
/// The key signs [`spec_signing_input`] (see [`signing_input`]) and the TLV
/// carries what it wrote (see [`signature_tlv`]). It fails when the provider
/// has no such association, when the TLV does not fit after the message
/// ([`signature_fits`]), and when the key fails to sign. Which key signs,
/// and what it computes, are the association's to decide.
pub fn add_signature<P: SecurityAssociationProvider>(provider: &P, spp: u8, message: &[u8]) -> (r:
    Result<Vec<u8>, NoSpaceError>)
    requires
        16 <= message@.len() <= MAX_DATA_LEN,
    ensures
        r matches Ok(t) ==> exists|key_id: u32, icv: Seq<u8>|
            t@ == spec_authentication_tlv(spp, key_id, icv) && signature_fits(
                message@.len() as int,
                icv.len() as int,
            ),
{
    let association = match provider.lookup(spp) {
        Some(association) => association,
        None => return Err(NoSpaceError),
    };
    let (key_id, key) = association.signing_mac();
    let n = key.output_size();
    if n > MAX_DATA_LEN - message.len() || MAX_DATA_LEN - message.len() - n < 10 {
        return Err(NoSpaceError);
    }
    let data = signing_input(message, spp, key_id, n, association.policy_data().ignore_correction);
    let mut output = [0u8; 1018];
    match key.sign(data.as_slice(), &mut output) {
        Ok(_) => {},
        Err(e) => return Err(e),
    }
    signature_tlv(message.len(), spp, key_id, n, &output)
}

/// The first authentication TLV lies within the message, after the TLVs
/// start.
pub proof fn lemma_first_authentication_tlv_in_message(message: Seq<u8>, at: int)
    ensures
        first_authentication_tlv(message, at) matches Some((start, len)) ==> at <= start && 0
            <= len && start + 4 + len <= message.len(),
    decreases message.len() - at,
{
    if at >= 0 && at + 4 <= message.len() {
        let len = u16_at(message, at + 2) as int;
        if at + 4 + len <= message.len() && u16_at(message, at) != AUTHENTICATION_TLV_TYPE {
            lemma_first_authentication_tlv_in_message(message, at + 4 + len);
        }
    }
}

} // verus!
