//! Fixed-size identifier and key types that appear in frames.
//!
//! Each type wraps a fixed-width byte array and is viewed as the sequence of
//! those bytes. A validating constructor accepts a slice exactly as long as
//! the type and fails with `Error::Size` otherwise.

use vstd::prelude::*;

use crate::Error;

verus! {

/// An 8-byte end-device extended unique identifier.
#[derive(Clone, Copy, Debug)]
pub struct DevEui {
    pub bytes: [u8; 8],
}

/// An 8-byte join-server extended unique identifier.
#[derive(Clone, Copy, Debug)]
pub struct JoinEui {
    pub bytes: [u8; 8],
}

/// The 2-byte nonce of a join-request.
#[derive(Clone, Copy, Debug)]
pub struct DevNonce {
    pub bytes: [u8; 2],
}

/// The 4-byte end-device address within a network, in wire order
/// (little-endian on the wire).
#[derive(Clone, Copy, Debug)]
pub struct DevAddr {
    pub bytes: [u8; 4],
}

/// A 4-byte message integrity code: the leading 4 bytes of an AES-CMAC.
#[derive(Clone, Copy, Debug, PartialEq, Eq)]
pub struct MIC {
    pub bytes: [u8; 4],
}

/// The 16-byte network session key (integrity, and port-0 payloads).
#[derive(Clone, Copy, Debug)]
pub struct NwkSKey {
    pub bytes: [u8; 16],
}

/// The 16-byte application session key (payload confidentiality).
#[derive(Clone, Copy, Debug)]
pub struct AppSKey {
    pub bytes: [u8; 16],
}

impl View for DevEui {
    type V = Seq<u8>;

    open spec fn view(&self) -> Seq<u8> {
        self.bytes@
    }
}

impl View for JoinEui {
    type V = Seq<u8>;

    open spec fn view(&self) -> Seq<u8> {
        self.bytes@
    }
}

impl View for DevNonce {
    type V = Seq<u8>;

    open spec fn view(&self) -> Seq<u8> {
        self.bytes@
    }
}

impl View for DevAddr {
    type V = Seq<u8>;

    open spec fn view(&self) -> Seq<u8> {
        self.bytes@
    }
}

impl View for MIC {
    type V = Seq<u8>;

    open spec fn view(&self) -> Seq<u8> {
        self.bytes@
    }
}

impl View for NwkSKey {
    type V = Seq<u8>;

    open spec fn view(&self) -> Seq<u8> {
        self.bytes@
    }
}

impl View for AppSKey {
    type V = Seq<u8>;

    open spec fn view(&self) -> Seq<u8> {
        self.bytes@
    }
}

impl DevAddr {
    pub fn new(bytes: [u8; 4]) -> (r: Self)
        ensures
            r@ == bytes@,
    {
        DevAddr { bytes }
    }

    /// View a byte span as a device address; succeeds iff the span is
    /// exactly 4 bytes long.
    pub fn from_slice(s: &[u8]) -> (r: Result<Self, Error>)
        ensures
            s@.len() == 4 ==> (r matches Ok(a) && a@ == s@),
            s@.len() != 4 ==> r == Err::<Self, Error>(Error::Size),
    {
        if s.len() != 4 {
            return Err(Error::Size);
        }
        let bytes: [u8; 4] = [s[0], s[1], s[2], s[3]];
        assert(bytes@ =~= s@);
        Ok(DevAddr { bytes })
    }
}

impl MIC {
    pub fn new(bytes: [u8; 4]) -> (r: Self)
        ensures
            r@ == bytes@,
    {
        MIC { bytes }
    }
}

impl DevEui {
    pub fn new(bytes: [u8; 8]) -> (r: Self)
        ensures
            r@ == bytes@,
    {
        DevEui { bytes }
    }
}

impl JoinEui {
    pub fn new(bytes: [u8; 8]) -> (r: Self)
        ensures
            r@ == bytes@,
    {
        JoinEui { bytes }
    }
}

impl DevNonce {
    pub fn new(bytes: [u8; 2]) -> (r: Self)
        ensures
            r@ == bytes@,
    {
        DevNonce { bytes }
    }
}

impl NwkSKey {
    pub fn new(bytes: [u8; 16]) -> (r: Self)
        ensures
            r@ == bytes@,
    {
        NwkSKey { bytes }
    }
}

impl AppSKey {
    pub fn new(bytes: [u8; 16]) -> (r: Self)
        ensures
            r@ == bytes@,
    {
        AppSKey { bytes }
    }
}

} // verus!
