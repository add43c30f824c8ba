//! The best master clock algorithm (IEEE1588-2019 section 9.3)

pub mod bmca;
pub mod dataset_comparison;
pub mod foreign_master;
