use vstd::prelude::*;

use arrayvec::ArrayVec;
use vstd::slice::slice_subrange;

use super::TlvType;
use crate::datastructures::WireFormatError;

verus! {

#[verifier::external_type_specification]
#[verifier::external_body]
#[verifier::reject_recursive_types(T)]
pub struct ExArrayVec<T, const CAP: usize>(ArrayVec<T, CAP>);

/// `ArrayVec::clone`: a copy of the buffer. Nothing is stated of the copy.
pub assume_specification<T: Clone, const CAP: usize>[ <ArrayVec<T, CAP> as Clone>::clone ](
    v: &ArrayVec<T, CAP>,
) -> ArrayVec<T, CAP>;

/// The bytes held by a TLV value buffer, in order.
pub uninterp spec fn tlv_value_bytes(v: ArrayVec<u8, 128>) -> Seq<u8>;

/// `ArrayVec::new`: an empty value buffer.
#[verifier::external_body]
fn empty_value() -> (r: ArrayVec<u8, 128>)
    ensures
        tlv_value_bytes(r) == Seq::<u8>::empty(),
{
    ArrayVec::new()
}

/// `ArrayVec::try_push`: appends `byte` when fewer than 128 bytes are held
/// and reports whether it did; a full buffer is left as it was.
#[verifier::external_body]
fn value_try_push(v: &mut ArrayVec<u8, 128>, byte: u8) -> (pushed: bool)
    ensures
        pushed <==> tlv_value_bytes(*old(v)).len() < 128,
        pushed ==> tlv_value_bytes(*final(v)) == tlv_value_bytes(*old(v)).push(byte),
        !pushed ==> tlv_value_bytes(*final(v)) == tlv_value_bytes(*old(v)),
{
    v.try_push(byte).is_ok()
}

/// The slice as a two byte array, when it has exactly two bytes.
fn as_pair(s: &[u8]) -> (r: Option<[u8; 2]>)
    ensures
        r is Some <==> s@.len() == 2,
        r matches Some(a) ==> a@ == s@,
{
    if s.len() == 2 {
        let a = [s[0], s[1]];
        assert(a@ =~= s@);
        Some(a)
    } else {
        None
    }
}

/// A type-length-value element of a PTP message.
#[derive(Debug, Clone, PartialEq, Eq)]
pub struct TLV {
    /// Type of the element.
    pub tlv_type: TlvType,
    /// Length of the value in bytes.
    pub length: u16,
    /// The value.
    pub value: ArrayVec<u8, 128>,
}

impl Default for TLV {
    fn default() -> (r: Self)
        ensures
            r.tlv_type == TlvType::Management,
            r.length == 0,
            tlv_value_bytes(r.value) == Seq::<u8>::empty(),
    {
        TLV { tlv_type: TlvType::Management, length: 0, value: empty_value() }
    }
}

impl TLV {
    /// The byte size on the wire of this object: four bytes of type and
    /// length, then the value.
    pub fn wire_size(&self) -> (r: usize)
        requires
            self.length <= u16::MAX - 4,
        ensures
            r == 4 + self.length,
    {
        (4 + self.length) as usize
    }

    /// Deserializes a TLV.
    ///
    /// The type and the length are read as two byte arrays from the one byte
    /// ranges `0..1` and `2..3`, which never hold two bytes: every buffer of
    /// five bytes or more is rejected with `SliceError`.
    pub fn deserialize(buffer: &[u8]) -> (r: Result<Self, WireFormatError>)
        ensures
            buffer@.len() < 5 ==> r == Err::<Self, WireFormatError>(WireFormatError::BufferTooShort),
            buffer@.len() >= 5 ==> r == Err::<Self, WireFormatError>(WireFormatError::SliceError),
    {
        if buffer.len() < 5 {
            return Err(WireFormatError::BufferTooShort);
        }
        // Parse length
        let length_bytes = match as_pair(slice_subrange(buffer, 2, 3)) {
            Some(bytes) => bytes,
            None => return Err(WireFormatError::SliceError),
        };
        let length: u16 = ((length_bytes[0] as u16) << 8u16) | (length_bytes[1] as u16);
        // Parse TLV content / value
        if (buffer.len() as u64) < 5 + (length as u64) {
            return Err(WireFormatError::BufferTooShort);
        }
        let mut value = empty_value();
        let mut i: usize = 4;
        while i < 4 + length as usize
            invariant
                length_bytes@ == buffer@.subrange(2, 3),
                length_bytes@.len() == 2,
                4 + length <= buffer@.len(),
                4 <= i <= 4 + length,
            decreases 4 + length - i,
        {
            if !value_try_push(&mut value, buffer[i]) {
                return Err(WireFormatError::CapacityError);
            }
            i = i + 1;
        }
        // Parse TLV type
        let type_bytes = match as_pair(slice_subrange(buffer, 0, 1)) {
            Some(bytes) => bytes,
            None => return Err(WireFormatError::SliceError),
        };
        Ok(TLV {
            tlv_type: TlvType::from_primitive(((type_bytes[0] as u16) << 8u16) | (type_bytes[1] as u16)),
            length,
            value,
        })
    }
}

} // verus!
