//! The uplink direction of the framer: MHDR bytes 0x40 (unconfirmed) and
//! 0x80 (confirmed), direction byte 0.

use vstd::prelude::*;

use crate::phy_payload::mac_payload::{MacPayload, Mhdr};

verus! {

/// The MAC header byte of an uplink data frame.
#[derive(Clone, Copy, Debug, PartialEq, Eq)]
pub enum UplinkHeader {
    Unconfirmed,
    Confirmed,
}

impl Mhdr for UplinkHeader {
    open spec fn spec_dir() -> u8 {
        0
    }

    open spec fn spec_byte(self) -> u8 {
        match self {
            UplinkHeader::Unconfirmed => 0x40,
            UplinkHeader::Confirmed => 0x80,
        }
    }

    open spec fn spec_confirmed(self) -> bool {
        self is Confirmed
    }

    fn new(confirmed: bool) -> (r: Self) {
        if confirmed {
            UplinkHeader::Confirmed
        } else {
            UplinkHeader::Unconfirmed
        }
    }

    fn dir() -> (r: u8) {
        0
    }

    fn byte(&self) -> (r: u8) {
        match self {
            UplinkHeader::Unconfirmed => 0x40,
            UplinkHeader::Confirmed => 0x80,
        }
    }

    fn from_byte(b: u8) -> (r: Option<Self>) {
        if b == 0x40 {
            Some(UplinkHeader::Unconfirmed)
        } else if b == 0x80 {
            Some(UplinkHeader::Confirmed)
        } else {
            None
        }
    }
}

/// An uplink data frame.
pub type Uplink = MacPayload<UplinkHeader>;

impl Uplink {
    /// Whether this frame asks for an acknowledgement.
    pub fn confirmed(&self) -> (r: bool)
        ensures
            r == self.mhdr.spec_confirmed(),
    {
        match self.mhdr {
            UplinkHeader::Unconfirmed => false,
            UplinkHeader::Confirmed => true,
        }
    }
}

} // verus!
