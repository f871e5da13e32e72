//! Certification-protocol MAC commands.

pub mod downlink;
pub mod uplink;
