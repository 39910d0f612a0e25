//! The processor.

pub mod boot;
