//! Encoding and decoding of LoRaWAN link-layer frames and their MAC command
//! payloads, with the cryptographic binding that ties a frame to a session:
//! payload confidentiality by an AES-128 counter-mode XOR keystream and
//! integrity by a truncated AES-CMAC message integrity code.
//!
//! The three layers, leaves first: fixed-size identifier and key types
//! (`types`), the CID-keyed MAC command codec (`mac_command`), and the PHY
//! payload framer with its crypto binding (`phy_payload`, `crypto`).
//!
//! Frames and payloads are held as owned values, and decoding copies the
//! span it is given rather than reinterpreting it in place: the wire layout
//! is captured by the specification functions over byte sequences, not by
//! borrowed views into the caller's buffer.

pub mod crypto;
pub mod mac_command;
pub mod phy_payload;
pub mod types;

use vstd::prelude::*;

verus! {

/// The four error kinds of the codec.
///
/// - `Size`: a buffer was too short for the operation (decode truncation,
///   encode overflow).
/// - `FPort`: an operation is inconsistent with the FPort value.
/// - `Payload`: structural violation of the layout invariants (unknown MHDR,
///   illegal variant discriminant, FOpts and a port-0 payload together).
/// - `MIC`: the computed message integrity code does not match the one
///   present in the frame.
#[derive(Clone, Copy, Debug, PartialEq, Eq, Structural)]
pub enum Error {
    Size,
    FPort,
    Payload,
    MIC,
}

} // verus!
