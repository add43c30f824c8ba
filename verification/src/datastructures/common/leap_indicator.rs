use vstd::prelude::*;

verus! {

/// Describes upcoming leap seconds.
#[derive(Debug, Clone, Copy, PartialEq, Eq, Hash)]
pub enum LeapIndicator {
    /// No leap seconds will be added or removed on this UTC day.
    NoLeap,
    /// The last minute of this UTC day will have 61 seconds.
    Leap61,
    /// The last minute of this UTC day will have 59 seconds.
    Leap59,
}

impl Default for LeapIndicator {
    fn default() -> (r: Self)
        ensures
            r == LeapIndicator::NoLeap,
    {
        LeapIndicator::NoLeap
    }
}

} // verus!
