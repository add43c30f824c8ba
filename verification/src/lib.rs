//! A verified library for the wire formats, data sets and decision logic of
//! the Precision Time Protocol (IEEE1588), versions 1 and 2.

use vstd::prelude::*;

pub mod bmc;
pub mod clock;
pub mod config;
pub mod crypto;
pub mod datastructures;
pub mod filters;
pub mod observability;
pub mod port;
pub mod ptp_instance;
pub mod time;

verus! {

} // verus!
