//! A bounded-concurrency TCP/UDP port scanning engine: host normalization,
//! probe outcome classification, result reporting and the two-phase sweep.

pub mod address;
pub mod report;
pub mod settings;
pub mod sweep;
