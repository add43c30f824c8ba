//! General datastructures as defined by the ptp spec

use vstd::prelude::*;

pub mod common;
pub mod datasets;
pub mod messages;
pub mod messages_v1;
pub mod wire;

verus! {

/// Errors that can occur while reading or writing the PTP wire format.
#[derive(Clone, Copy, Debug, PartialEq, Eq)]
pub enum WireFormatError {
    /// A value on the wire did not name any variant of the expected enum.
    EnumConversionError,
    /// The buffer is shorter than what the value needs.
    BufferTooShort,
    /// A slice of the buffer could not be taken as a fixed size array.
    SliceError,
    /// A value did not fit in the space reserved for it.
    CapacityError,
}

} // verus!
