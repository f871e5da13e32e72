//! Uplink commands of the certification test-harness vocabulary
//! (device under test to TCL).

use vstd::prelude::*;

verus! {

/// Conveys the package version implemented by the end-device.
#[derive(Clone, Copy, Debug, PartialEq, Eq)]
pub struct PackageVersionAns {
    pub package_identifier: u8,
    pub package_version: u8,
}

/// An uplink certification command.
#[derive(Clone, Copy, Debug, PartialEq, Eq)]
pub enum CertificationUplinkMacCommand {
    /// Conveys the answer to PackageVersionReq
    PackageVersionAns(PackageVersionAns),
    /// Conveys the answer to EchoPayloadReq request
    EchoPayloadAns,
    /// Conveys the answer to RxAppCntReq request
    RxAppCntAns,
    /// Conveys the answer to DutVersionsReq request
    DutVersionsAns,
}

} // verus!
