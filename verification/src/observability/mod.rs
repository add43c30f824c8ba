//! Implementations of the data sets to be used for observability

/// A concrete implementation of the PTP Current dataset (IEEE1588-2019 section
/// 8.2.2)
pub mod current;
/// A concrete implementation of the PTP Default dataset (IEEE1588-2019 section
/// 8.2.1)
pub mod default;
/// A concrete implementation of the PTP Parent dataset (IEEE1588-2019 section
/// 8.2.3)
pub mod parent;
/// The state of a port as the PTP Port dataset (IEEE1588-2019 section 8.2.15)
/// reports it
pub mod port;
