//! The data sets of a PTP instance (IEEE1588-2019 section 8.2)

mod current;
mod default;
mod parent;
mod path_trace;
mod time_properties;

pub use default::InternalDefaultDS;
pub use current::InternalCurrentDS;
pub use parent::InternalParentDS;
pub use path_trace::{path_trace_identities, PathTraceDS};
pub(crate) use path_trace::{empty_path_trace, path_trace_get, path_trace_len, path_trace_push};
pub use time_properties::TimePropertiesDS;
