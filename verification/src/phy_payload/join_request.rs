//! The join-request frame view:
//! `MHDR(0x00) ‖ JoinEUI(8) ‖ DevEUI(8) ‖ DevNonce(2)`.

use vstd::prelude::*;

use crate::types::{DevEui, DevNonce, JoinEui};

verus! {

/// The MAC header byte of a join-request.
#[derive(Clone, Copy, Debug, PartialEq, Eq)]
pub enum MHDR {
    JoinRequest,
}

/// A join-request frame. Its MIC is the join procedure's responsibility and
/// not part of this view.
#[derive(Clone, Copy, Debug)]
pub struct JoinRequest {
    pub mhdr: MHDR,
    pub join_eui: JoinEui,
    pub dev_eui: DevEui,
    pub dev_nonce: DevNonce,
}

impl JoinRequest {
    /// The wire bytes of this frame: the 0x00 header, then the two EUIs and
    /// the nonce in their wire order.
    pub open spec fn spec_bytes(self) -> Seq<u8> {
        seq![0u8] + self.join_eui@ + self.dev_eui@ + self.dev_nonce@
    }

    pub fn new(join_eui: JoinEui, dev_eui: DevEui, dev_nonce: DevNonce) -> (r: Self)
        ensures
            r.join_eui@ == join_eui@,
            r.dev_eui@ == dev_eui@,
            r.dev_nonce@ == dev_nonce@,
    {
        JoinRequest { mhdr: MHDR::JoinRequest, join_eui, dev_eui, dev_nonce }
    }

    /// Writes the 19 frame bytes.
    pub fn as_bytes(&self) -> (r: Vec<u8>)
        ensures
            r@ == self.spec_bytes(),
    {
        let mut v: Vec<u8> = Vec::new();
        v.push(0x00);
        let mut i: usize = 0;
        while i < 8
            invariant
                i <= 8,
                v@ == seq![0u8] + self.join_eui@.subrange(0, i as int),
            decreases 8 - i,
        {
            v.push(self.join_eui.bytes[i]);
            proof {
                assert(v@ =~= seq![0u8] + self.join_eui@.subrange(0, i as int + 1));
            }
            i += 1;
        }
        proof {
            assert(self.join_eui@.subrange(0, 8) =~= self.join_eui@);
        }
        let mut j: usize = 0;
        while j < 8
            invariant
                j <= 8,
                v@ == seq![0u8] + self.join_eui@ + self.dev_eui@.subrange(0, j as int),
            decreases 8 - j,
        {
            v.push(self.dev_eui.bytes[j]);
            proof {
                assert(v@ =~= seq![0u8] + self.join_eui@ + self.dev_eui@.subrange(0, j as int + 1));
            }
            j += 1;
        }
        proof {
            assert(self.dev_eui@.subrange(0, 8) =~= self.dev_eui@);
        }
        v.push(self.dev_nonce.bytes[0]);
        v.push(self.dev_nonce.bytes[1]);
        proof {
            assert(v@ =~= self.spec_bytes());
        }
        v
    }
}

} // verus!
