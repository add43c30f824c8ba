use vstd::prelude::*;

use arrayvec::ArrayVec;

use crate::datastructures::common::ClockIdentity;

verus! {

/// The clock identities held by a path trace list, in order.
pub uninterp spec fn path_trace_identities(v: ArrayVec<ClockIdentity, 128>) -> Seq<ClockIdentity>;

/// `ArrayVec::new`: an empty path trace list.
#[verifier::external_body]
pub(crate) fn empty_path_trace() -> (r: ArrayVec<ClockIdentity, 128>)
    ensures
        path_trace_identities(r) == Seq::<ClockIdentity>::empty(),
{
    ArrayVec::new()
}

/// `ArrayVec::push`: appends `id` to the list. `push` panics on a full list,
/// so the list must hold fewer than 128 identities.
#[verifier::external_body]
pub(crate) fn path_trace_push(v: &mut ArrayVec<ClockIdentity, 128>, id: ClockIdentity)
    requires
        path_trace_identities(*old(v)).len() < 128,
    ensures
        path_trace_identities(*final(v)) == path_trace_identities(*old(v)).push(id),
{
    v.push(id)
}

/// `ArrayVec::len`: the number of identities in the list, which never
/// exceeds its capacity of 128.
#[verifier::external_body]
pub(crate) fn path_trace_len(v: &ArrayVec<ClockIdentity, 128>) -> (r: usize)
    ensures
        r == path_trace_identities(*v).len(),
        r <= 128,
{
    v.len()
}

/// Indexing an `ArrayVec`: the identity at position `i`. Indexing panics out
/// of bounds, so `i` must be below the length.
#[verifier::external_body]
pub(crate) fn path_trace_get(v: &ArrayVec<ClockIdentity, 128>, i: usize) -> (r: ClockIdentity)
    requires
        i < path_trace_identities(*v).len(),
    ensures
        r == path_trace_identities(*v)[i as int],
{
    v[i]
}

/// A concrete implementation of the PTP Path Trace dataset
/// (IEEE1588-2019 section 16.2.2)
///
/// The list holds at most as many identities as fit in a message of
/// `MAX_DATA_LEN` (1024) bytes: 128.
#[derive(Clone, Debug, Eq, PartialEq)]
pub struct PathTraceDS {
    /// See *IEEE1588-2019 section 16.2.2.2.1*.
    pub list: ArrayVec<ClockIdentity, 128>,
    /// See *IEEE1588-2019 section 16.2.2.3.1*.
    pub enable: bool,
}

impl PathTraceDS {
    /// A path trace data set with an empty list.
    pub fn new(enable: bool) -> (r: Self)
        ensures
            path_trace_identities(r.list) == Seq::<ClockIdentity>::empty(),
            r.enable == enable,
    {
        PathTraceDS { list: empty_path_trace(), enable }
    }
}

} // verus!
