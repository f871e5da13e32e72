//! The join-accept frame view:
//! `MHDR(0x20) ‖ JoinNonce(3) ‖ NetID(3) ‖ DevAddr(4) ‖ DLSettings(1) ‖
//! RxDelay(1) ‖ CFList(0 or 16)`.

use vstd::prelude::*;

use crate::Error;

verus! {

/// The MAC header byte of a join-accept.
#[derive(Clone, Copy, Debug, PartialEq, Eq)]
pub enum JoinAcceptHeader {
    JoinAccept,
}

/// Bits 0-3: rx2_dr; bits 4-6: rx1_dr_offset; bit 7: RFU.
#[derive(Clone, Copy, Debug, PartialEq, Eq)]
pub struct DlSettings {
    pub raw: u8,
}

impl DlSettings {
    pub fn new() -> (r: Self)
        ensures
            r.raw == 0,
    {
        DlSettings { raw: 0 }
    }

    pub fn rx2_dr(&self) -> (r: u8)
        ensures
            r == self.raw & 0x0F,
    {
        self.raw & 0x0F
    }

    pub fn with_rx2_dr(self, v: u8) -> (r: Self)
        requires
            v < 16,
        ensures
            r.raw == (self.raw & 0xF0) | v,
    {
        DlSettings { raw: (self.raw & 0xF0) | v }
    }

    pub fn rx1_dr_offset(&self) -> (r: u8)
        ensures
            r == (self.raw >> 4) & 0x07,
    {
        (self.raw >> 4) & 0x07
    }

    pub fn with_rx1_dr_offset(self, v: u8) -> (r: Self)
        requires
            v < 8,
        ensures
            r.raw == (self.raw & 0x8F) | (v << 4),
    {
        DlSettings { raw: (self.raw & 0x8F) | (v << 4) }
    }
}

/// A decoded join-accept frame. Its MIC and decryption are the join
/// procedure's responsibility and not part of this view.
#[derive(Clone, Debug)]
pub struct JoinAccept {
    pub mhdr: JoinAcceptHeader,
    pub join_nonce: [u8; 3],
    pub net_id: [u8; 3],
    pub dev_addr: [u8; 4],
    pub dl_settings: DlSettings,
    pub rx_delay: u8,
    pub cf_list: Vec<u8>,
}

impl JoinAccept {
    /// Views a byte span as a join-accept: 13 bytes of fixed fields, then a
    /// channel-frequency list of 0 or 16 bytes. Any other length fails with
    /// `Size`; a header byte other than 0x20 fails with `Payload`.
    pub fn from_bytes(bytes: &[u8]) -> (r: Result<Self, Error>)
        ensures
            bytes@.len() < 13 ==> r == Err::<Self, Error>(Error::Size),
            bytes@.len() >= 13 && bytes@[0] != 0x20 ==> r == Err::<Self, Error>(Error::Payload),
            bytes@.len() >= 13 && bytes@[0] == 0x20 && bytes@.len() != 13 && bytes@.len() != 29
                ==> r == Err::<Self, Error>(Error::Size),
            (bytes@.len() == 13 || bytes@.len() == 29) && bytes@[0] == 0x20 ==> (r matches Ok(a)
                && a.join_nonce@ == bytes@.subrange(1, 4) && a.net_id@ == bytes@.subrange(4, 7)
                && a.dev_addr@ == bytes@.subrange(7, 11) && a.dl_settings.raw == bytes@[11]
                && a.rx_delay == bytes@[12] && a.cf_list@ == bytes@.skip(13)),
    {
        if bytes.len() < 13 {
            return Err(Error::Size);
        }
        if bytes[0] != 0x20 {
            return Err(Error::Payload);
        }
        if bytes.len() != 13 && bytes.len() != 29 {
            return Err(Error::Size);
        }
        let join_nonce: [u8; 3] = [bytes[1], bytes[2], bytes[3]];
        let net_id: [u8; 3] = [bytes[4], bytes[5], bytes[6]];
        let dev_addr: [u8; 4] = [bytes[7], bytes[8], bytes[9], bytes[10]];
        let cf_list = vstd::slice::slice_to_vec(
            vstd::slice::slice_subrange(bytes, 13, bytes.len()),
        );
        let r = JoinAccept {
            mhdr: JoinAcceptHeader::JoinAccept,
            join_nonce,
            net_id,
            dev_addr,
            dl_settings: DlSettings { raw: bytes[11] },
            rx_delay: bytes[12],
            cf_list,
        };
        proof {
            assert(r.join_nonce@ =~= bytes@.subrange(1, 4));
            assert(r.net_id@ =~= bytes@.subrange(4, 7));
            assert(r.dev_addr@ =~= bytes@.subrange(7, 11));
            assert(r.cf_list@ =~= bytes@.skip(13));
        }
        Ok(r)
    }
}

} // verus!
