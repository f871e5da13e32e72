//! The MAC command codec: every downlink and uplink MAC command, each with a
//! fixed payload length, keyed by a 1-byte command identifier (CID).

pub mod certification;
pub mod downlink;
pub mod uplink;

use vstd::prelude::*;

verus! {

pub const LINK_CHECK_CID: u8 = 0x02;

pub const LINK_ADR_CID: u8 = 0x03;

pub const DUTY_CYCLE_CID: u8 = 0x04;

pub const RX_PARAM_SETUP_CID: u8 = 0x05;

pub const DEV_STATUS_CID: u8 = 0x06;

pub const NEW_CHANNEL_CID: u8 = 0x07;

pub const RX_TIMING_SETUP_CID: u8 = 0x08;

pub const TX_PARAM_SETUP_CID: u8 = 0x09;

pub const DI_CHANNEL_CID: u8 = 0x0A;

pub const DEVICE_TIME_CID: u8 = 0x0D;

} // verus!
