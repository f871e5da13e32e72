//! The downlink direction of the framer: MHDR bytes 0x60 (unconfirmed) and
//! 0xA0 (confirmed), direction byte 1.

use vstd::prelude::*;

use crate::mac_command::downlink::DownlinkMacCommandDecoder;
use crate::phy_payload::mac_payload::{MacPayload, Mhdr};

verus! {

/// The MAC header byte of a downlink data frame.
#[derive(Clone, Copy, Debug, PartialEq, Eq)]
pub enum DownlinkHeader {
    Unconfirmed,
    Confirmed,
}

impl Mhdr for DownlinkHeader {
    open spec fn spec_dir() -> u8 {
        1
    }

    open spec fn spec_byte(self) -> u8 {
        match self {
            DownlinkHeader::Unconfirmed => 0x60,
            DownlinkHeader::Confirmed => 0xA0,
        }
    }

    open spec fn spec_confirmed(self) -> bool {
        self is Confirmed
    }

    fn new(confirmed: bool) -> (r: Self) {
        if confirmed {
            DownlinkHeader::Confirmed
        } else {
            DownlinkHeader::Unconfirmed
        }
    }

    fn dir() -> (r: u8) {
        1
    }

    fn byte(&self) -> (r: u8) {
        match self {
            DownlinkHeader::Unconfirmed => 0x60,
            DownlinkHeader::Confirmed => 0xA0,
        }
    }

    fn from_byte(b: u8) -> (r: Option<Self>) {
        if b == 0x60 {
            Some(DownlinkHeader::Unconfirmed)
        } else if b == 0xA0 {
            Some(DownlinkHeader::Confirmed)
        } else {
            None
        }
    }
}

/// A downlink data frame.
pub type Downlink = MacPayload<DownlinkHeader>;

impl Downlink {
    /// Whether this frame asks for an acknowledgement.
    pub fn confirmed(&self) -> (r: bool)
        ensures
            r == self.mhdr.spec_confirmed(),
    {
        match self.mhdr {
            DownlinkHeader::Unconfirmed => false,
            DownlinkHeader::Confirmed => true,
        }
    }

    /// A decoder over the MAC commands the frame carries: those in FOpts
    /// when `f_opts_len > 0`, else those of a port-0 payload, else `None`.
    pub fn mac_commands(&self) -> (r: Option<DownlinkMacCommandDecoder>)
        ensures
            self.fhdr.f_opts@.len() > 0 ==> (r matches Some(d) && d.wf() && d.remaining()
                == self.fhdr.f_opts@),
            self.fhdr.f_opts@.len() == 0 ==> match self.frm {
                Some(p) => if p.f_port == 0 {
                    r matches Some(d) && d.wf() && d.remaining() == p.data@
                } else {
                    r is None
                },
                None => r is None,
            },
    {
        if self.fhdr.f_opts.len() > 0 {
            Some(DownlinkMacCommandDecoder::new(self.fhdr.f_opts.as_slice()))
        } else {
            match &self.frm {
                Some(p) => if p.f_port == 0 {
                    Some(DownlinkMacCommandDecoder::new(p.data.as_slice()))
                } else {
                    None
                },
                None => None,
            }
        }
    }
}

} // verus!
