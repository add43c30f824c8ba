use vstd::prelude::*;

verus! {

/// What the time values of a grandmaster are derived from
/// (IEEE1588-2019 section 7.6.2.8).
#[derive(Debug, Clone, Copy, PartialEq, Eq, Hash)]
pub enum TimeSource {
    /// An atomic clock.
    AtomicClock,
    /// A satellite navigation system.
    Gnss,
    /// A terrestrial radio.
    TerrestrialRadio,
    /// A serial time code.
    SerialTimeCode,
    /// A PTP instance of another domain.
    Ptp,
    /// NTP.
    Ntp,
    /// Set by hand.
    HandSet,
    /// Another source.
    Other,
    /// A free-running oscillator.
    InternalOscillator,
}

impl Default for TimeSource {
    fn default() -> (r: Self)
        ensures
            r == TimeSource::InternalOscillator,
    {
        TimeSource::InternalOscillator
    }
}

} // verus!
