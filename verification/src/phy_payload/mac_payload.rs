//! The data-frame framer: layout `MHDR ‖ FHDR ‖ (FPort ‖ FRMPayload)? ‖ MIC`,
//! counter-mode payload encryption, and the message integrity code over the
//! `B0` pseudo-header plus the frame prefix.
//!
//! `spec_encode_frame` and `spec_decode_frame` are the reference meanings of
//! building and validating a frame; the executable `build` and
//! `new_from_encrypted` are proved against them, and the laws at the end of
//! the file relate the two.

pub mod downlink;
pub mod uplink;

use vstd::prelude::*;

use crate::crypto::{aes128_block, spec_cmac_prefix, Crypto, Encrypter, Key, Mac};
use crate::mac_command::uplink::{
    lemma_encode_uplink_concat, spec_encode_uplink, UplinkMacCommmand,
};
use crate::types::{DevAddr, MIC};
use crate::Error;

verus! {

/// The two little-endian bytes of `x`.
pub open spec fn spec_u16_le(x: u16) -> Seq<u8> {
    seq![(x % 0x100) as u8, (x / 0x100) as u8]
}

/// The four little-endian bytes of `x`.
pub open spec fn spec_u32_le(x: u32) -> Seq<u8> {
    seq![
        (x % 0x100) as u8,
        ((x / 0x100) % 0x100) as u8,
        ((x / 0x10000) % 0x100) as u8,
        ((x / 0x1000000) % 0x100) as u8,
    ]
}

/// The frame-control byte. Bits 0-3: f_opts_len; bit 4: f_pending (downlink
/// only); bit 5: ack; bit 6: RFU; bit 7: adr. RFU content is preserved on
/// reads and written as zero by the constructors.
#[derive(Clone, Copy, Debug, PartialEq, Eq)]
pub struct FCtrl {
    pub raw: u8,
}

/// The frame-control byte assembled from its parts, RFU bit zero.
pub open spec fn spec_fctrl_byte(adr: bool, ack: bool, f_pending: bool, f_opts_len: int) -> u8
    recommends
        0 <= f_opts_len < 16,
{
    ((if adr {
        128int
    } else {
        0int
    }) + (if ack {
        32int
    } else {
        0int
    }) + (if f_pending {
        16int
    } else {
        0int
    }) + f_opts_len) as u8
}

impl FCtrl {
    pub fn new() -> (r: Self)
        ensures
            r.raw == 0,
    {
        FCtrl { raw: 0 }
    }

    pub fn f_opts_len(&self) -> (r: usize)
        ensures
            r == self.raw % 16,
    {
        (self.raw % 16) as usize
    }

    pub fn with_f_opts_len(self, v: usize) -> (r: Self)
        requires
            v < 16,
        ensures
            r.raw == (self.raw / 16) * 16 + v,
    {
        FCtrl { raw: (self.raw / 16) * 16 + (v as u8) }
    }

    pub fn f_pending(&self) -> (r: bool)
        ensures
            r == ((self.raw / 16) % 2 == 1),
    {
        (self.raw / 16) % 2 == 1
    }

    pub fn with_f_pending(self, b: bool) -> (r: Self)
        ensures
            r.raw == (self.raw / 32) * 32 + (if b {
                16int
            } else {
                0int
            }) + self.raw % 16,
    {
        FCtrl { raw: (self.raw / 32) * 32 + (if b { 16u8 } else { 0u8 }) + self.raw % 16 }
    }

    pub fn ack(&self) -> (r: bool)
        ensures
            r == ((self.raw / 32) % 2 == 1),
    {
        (self.raw / 32) % 2 == 1
    }

    pub fn with_ack(self, b: bool) -> (r: Self)
        ensures
            r.raw == (self.raw / 64) * 64 + (if b {
                32int
            } else {
                0int
            }) + self.raw % 32,
    {
        FCtrl { raw: (self.raw / 64) * 64 + (if b { 32u8 } else { 0u8 }) + self.raw % 32 }
    }

    pub fn adr(&self) -> (r: bool)
        ensures
            r == (self.raw >= 128),
    {
        self.raw >= 128
    }

    pub fn with_adr(self, b: bool) -> (r: Self)
        ensures
            r.raw == (if b {
                128int
            } else {
                0int
            }) + self.raw % 128,
    {
        FCtrl { raw: (if b { 128u8 } else { 0u8 }) + self.raw % 128 }
    }
}

/// The frame header: device address, frame control, the low 16 bits of the
/// frame counter, and up to 15 bytes of piggybacked MAC commands.
///
/// Invariant (`wf`, established by `new`): the FOpts bytes held equal in
/// number the `f_opts_len` field of the control byte.
#[derive(Clone, Debug)]
pub struct FHDR {
    pub dev_addr: DevAddr,
    pub f_ctrl: FCtrl,
    pub f_cnt: u16,
    pub f_opts: Vec<u8>,
}

impl FHDR {
    pub open spec fn wf(self) -> bool {
        self.f_opts@.len() == self.f_ctrl.raw % 16
    }

    /// Builds a frame header; fails with `Size`, and only then, when more
    /// than 15 bytes of FOpts are supplied. The RFU bit is written as zero.
    pub fn new(dev_addr: DevAddr, adr: bool, ack: bool, f_pending: bool, f_cnt: u16, f_opts: &[u8])
        -> (r: Result<Self, Error>)
        ensures
            f_opts@.len() > 15 ==> r == Err::<Self, Error>(Error::Size),
            f_opts@.len() <= 15 ==> (r matches Ok(h) && h.wf() && h.dev_addr@ == dev_addr@
                && h.f_cnt == f_cnt && h.f_opts@ == f_opts@ && h.f_ctrl.raw == spec_fctrl_byte(
                adr,
                ack,
                f_pending,
                f_opts@.len() as int,
            )),
    {
        if f_opts.len() > 15 {
            return Err(Error::Size);
        }
        let raw: u8 = (if adr {
            128u8
        } else {
            0u8
        }) + (if ack {
            32u8
        } else {
            0u8
        }) + (if f_pending {
            16u8
        } else {
            0u8
        }) + (f_opts.len() as u8);
        let copied = vstd::slice::slice_to_vec(f_opts);
        Ok(FHDR { dev_addr, f_ctrl: FCtrl { raw }, f_cnt, f_opts: copied })
    }

    pub fn dev_addr(&self) -> (r: DevAddr)
        ensures
            r == self.dev_addr,
    {
        self.dev_addr
    }

    pub fn f_ctrl(&self) -> (r: FCtrl)
        ensures
            r == self.f_ctrl,
    {
        self.f_ctrl
    }

    pub fn f_cnt(&self) -> (r: u16)
        ensures
            r == self.f_cnt,
    {
        self.f_cnt
    }

    pub fn f_opts(&self) -> (r: &Vec<u8>)
        ensures
            r@ == self.f_opts@,
    {
        &self.f_opts
    }
}

/// The frame payload: the port byte and the application or MAC-command data
/// that follows it. Port 0 marks MAC-command data.
#[derive(Clone, Debug)]
pub struct FRMPayload {
    pub f_port: u8,
    pub data: Vec<u8>,
}

impl FRMPayload {
    /// A payload carrying `slice` on port `f_port`.
    pub fn new_from_slice(f_port: u8, slice: &[u8]) -> (r: Self)
        ensures
            r.f_port == f_port,
            r.data@ == slice@,
    {
        FRMPayload { f_port, data: vstd::slice::slice_to_vec(slice) }
    }

    /// A port-0 payload carrying the wire image of the given MAC commands.
    pub fn new_from_maccommands(mac_commands: &Vec<UplinkMacCommmand>) -> (r: Self)
        ensures
            r.f_port == 0,
            r.data@ == spec_encode_uplink(mac_commands@),
    {
        let mut data: Vec<u8> = Vec::new();
        let mut idx: usize = 0;
        while idx < mac_commands.len()
            invariant
                idx <= mac_commands@.len(),
                data@ == spec_encode_uplink(mac_commands@.subrange(0, idx as int)),
            decreases mac_commands@.len() - idx,
        {
            let cmd = &mac_commands[idx];
            proof {
                reveal_with_fuel(spec_encode_uplink, 3);
                assert(mac_commands@.subrange(0, idx as int) + seq![mac_commands@[idx as int]]
                    =~= mac_commands@.subrange(0, idx as int + 1));
                lemma_encode_uplink_concat(
                    mac_commands@.subrange(0, idx as int),
                    seq![mac_commands@[idx as int]],
                );
                assert(seq![mac_commands@[idx as int]].skip(1) =~= Seq::<
                    UplinkMacCommmand,
                >::empty());
                assert(spec_encode_uplink(seq![mac_commands@[idx as int]])
                    =~= mac_commands@[idx as int].spec_bytes());
            }
            data.push(cmd.cid());
            match cmd {
                UplinkMacCommmand::LinkADRAns(c) => data.push(c.status.raw),
                UplinkMacCommmand::RXParamSetupAns(c) => data.push(c.status.raw),
                UplinkMacCommmand::DevStatusAns(c) => {
                    data.push(c.radio_status.raw);
                    data.push(c.battery);
                },
                UplinkMacCommmand::NewChannelAns(c) => data.push(c.status.raw),
                UplinkMacCommmand::DlChannelAns(c) => data.push(c.status.raw),
                _ => {},
            }
            proof {
                assert(data@ =~= spec_encode_uplink(mac_commands@.subrange(0, idx as int + 1)));
            }
            idx += 1;
        }
        proof {
            assert(mac_commands@.subrange(0, mac_commands@.len() as int) =~= mac_commands@);
        }
        FRMPayload { f_port: 0, data }
    }
}

/// Whether `b` is one of the two MHDR bytes of the given direction
/// (0: uplink, 1: downlink).
pub open spec fn spec_mhdr_valid(dir: u8, b: u8) -> bool {
    if dir == 0 {
        b == 0x40 || b == 0x80
    } else {
        b == 0x60 || b == 0xA0
    }
}

/// The MAC header of one frame direction: its wire byte and its direction
/// byte as used by the cryptographic pseudo-headers.
pub trait Mhdr: Sized {
    /// The direction: 0 for uplink, 1 for downlink.
    spec fn spec_dir() -> u8;

    /// The wire byte of this header.
    spec fn spec_byte(self) -> u8;

    /// Whether this header marks a confirmed frame.
    spec fn spec_confirmed(self) -> bool;

    fn new(confirmed: bool) -> (r: Self)
        ensures
            r.spec_confirmed() == confirmed,
            spec_mhdr_valid(Self::spec_dir(), r.spec_byte()),
            (r.spec_byte() == 0x80 || r.spec_byte() == 0xA0) == confirmed;

    fn dir() -> (r: u8)
        ensures
            r == Self::spec_dir();

    fn byte(&self) -> (r: u8)
        ensures
            r == self.spec_byte();

    /// The header a wire byte means, or `None` outside this direction's two
    /// accepted values.
    fn from_byte(b: u8) -> (r: Option<Self>)
        ensures
            (r is Some) <==> spec_mhdr_valid(Self::spec_dir(), b),
            r matches Some(h) ==> h.spec_byte() == b,
;
}

/// The 16-byte pseudo-header shared by `B0` (first byte 0x49) and `Ai`
/// (first byte 0x01): direction, device address, full 32-bit frame counter,
/// and one trailing length or index byte.
pub open spec fn spec_block_a(first: u8, dir: u8, dev_addr: Seq<u8>, f_cnt: u32, last: u8) -> Seq<
    u8,
>
    recommends
        dev_addr.len() == 4,
{
    seq![first, 0u8, 0u8, 0u8, 0u8, dir] + dev_addr + spec_u32_le(f_cnt) + seq![0u8, last]
}

/// The `B0` block feeding the CMAC: its last byte is the length of the
/// MIC-covered frame prefix.
pub open spec fn spec_b0(dir: u8, dev_addr: Seq<u8>, f_cnt: u32, msg_len: u8) -> Seq<u8> {
    spec_block_a(0x49, dir, dev_addr, f_cnt, msg_len)
}

/// The `Ai` block feeding the keystream: its last byte is the 1-based chunk
/// index.
pub open spec fn spec_ai(dir: u8, dev_addr: Seq<u8>, f_cnt: u32, i: u8) -> Seq<u8> {
    spec_block_a(0x01, dir, dev_addr, f_cnt, i)
}

/// Byte `i` of the keystream: byte `i % 16` of the encrypted `Ai` block of
/// chunk `i / 16`.
pub open spec fn spec_keystream_byte(
    key: Seq<u8>,
    dir: u8,
    dev_addr: Seq<u8>,
    f_cnt: u32,
    i: int,
) -> u8
    recommends
        0 <= i < 4080,
{
    aes128_block(key, spec_ai(dir, dev_addr, f_cnt, (i / 16 + 1) as u8))[i % 16]
}

/// `data` XOR-ed with the keystream: the payload encryption, and equally the
/// payload decryption.
pub open spec fn spec_encrypted(
    key: Seq<u8>,
    dir: u8,
    dev_addr: Seq<u8>,
    f_cnt: u32,
    data: Seq<u8>,
) -> Seq<u8> {
    Seq::new(data.len(), |i: int| data[i] ^ spec_keystream_byte(key, dir, dev_addr, f_cnt, i))
}

/// The message integrity code of `msg`: the leading 4 bytes of the AES-CMAC
/// over `B0 ‖ msg` under the network session key.
pub open spec fn spec_mic(nwk: Seq<u8>, dir: u8, dev_addr: Seq<u8>, f_cnt: u32, msg: Seq<u8>) -> Seq<
    u8,
>
    recommends
        msg.len() <= 255,
{
    spec_cmac_prefix(nwk, spec_b0(dir, dev_addr, f_cnt, msg.len() as u8) + msg)
}

/// Applying the keystream twice gives the data back: decryption inverts
/// encryption.
pub proof fn lemma_encrypt_involutive(
    key: Seq<u8>,
    dir: u8,
    dev_addr: Seq<u8>,
    f_cnt: u32,
    data: Seq<u8>,
)
    ensures
        spec_encrypted(key, dir, dev_addr, f_cnt, spec_encrypted(key, dir, dev_addr, f_cnt, data))
            == data,
{
    let once = spec_encrypted(key, dir, dev_addr, f_cnt, data);
    let twice = spec_encrypted(key, dir, dev_addr, f_cnt, once);
    assert forall|i: int| 0 <= i < data.len() implies twice[i] == data[i] by {
        let d = data[i];
        let k = spec_keystream_byte(key, dir, dev_addr, f_cnt, i);
        assert((d ^ k) ^ k == d) by (bit_vector);
    }
    assert(twice =~= data);
}

/// The mathematical content of one data frame: every field a caller can
/// observe, with the payload in plaintext.
#[verifier::ext_equal]
pub ghost struct FrameView {
    pub mhdr: u8,
    pub dev_addr: Seq<u8>,
    pub f_ctrl: u8,
    pub f_cnt: u16,
    pub f_opts: Seq<u8>,
    pub frm: Option<(u8, Seq<u8>)>,
    pub mic: Seq<u8>,
}

impl FrameView {
    /// `MHDR ‖ DevAddr ‖ FCtrl ‖ FCnt ‖ FOpts`.
    pub open spec fn header_bytes(self) -> Seq<u8> {
        seq![self.mhdr] + self.dev_addr + seq![self.f_ctrl] + spec_u16_le(self.f_cnt) + self.f_opts
    }

    /// The MIC-covered bytes: the header, then the port and the encrypted
    /// payload when one is present.
    pub open spec fn cipher_bytes(self, nwk: Seq<u8>, app: Seq<u8>, dir: u8, f_cnt32: u32) -> Seq<
        u8,
    > {
        self.header_bytes() + match self.frm {
            Some((port, data)) => seq![port] + spec_encrypted(
                if port == 0 {
                    nwk
                } else {
                    app
                },
                dir,
                self.dev_addr,
                f_cnt32,
                data,
            ),
            None => Seq::empty(),
        }
    }

    /// FOpts and a port-0 payload in the same frame: the violation of the
    /// layout invariants that both encode and decode refuse.
    pub open spec fn port_clash(self) -> bool {
        self.f_opts.len() > 0 && match self.frm {
            Some((port, _)) => port == 0,
            None => false,
        }
    }

    /// The length of the MIC-covered prefix.
    pub open spec fn covered_len(self) -> int {
        8 + self.f_opts.len() + match self.frm {
            Some((_, data)) => 1 + data.len() as int,
            None => 0int,
        }
    }

    /// Whether the MIC-covered prefix length fits the one `msg_len` byte of
    /// `B0`.
    pub open spec fn fits(self) -> bool {
        self.covered_len() <= 255
    }

    /// A frame the encoder accepts and the decoder gives back: 4-byte
    /// address, MHDR of the direction, FOpts matching `f_opts_len`, no
    /// FOpts/port-0 clash, and a coverable length.
    pub open spec fn wf(self, dir: u8) -> bool {
        &&& self.dev_addr.len() == 4
        &&& spec_mhdr_valid(dir, self.mhdr)
        &&& self.f_opts.len() == self.f_ctrl % 16
        &&& !self.port_clash()
        &&& self.fits()
    }
}

/// The full wire image of a frame: the covered bytes followed by their MIC.
pub open spec fn spec_encode_frame(
    f: FrameView,
    nwk: Seq<u8>,
    app: Seq<u8>,
    dir: u8,
    f_cnt32: u32,
) -> Seq<u8> {
    let c = f.cipher_bytes(nwk, app, dir, f_cnt32);
    c + spec_mic(nwk, dir, f.dev_addr, f_cnt32, c)
}

/// The frame a byte span means, or the error validation stops at: `Size` for
/// a span shorter than the layout demands (or longer than a MIC can cover),
/// `Payload` for an MHDR outside the direction's values or an FOpts/port-0
/// clash, `MIC` when the integrity code over the covered prefix does not
/// match the stored one. The MIC is checked before the clash, so any
/// mutation that leaves the sizes and the MHDR intact is answered with
/// `MIC`.
pub open spec fn spec_decode_frame(
    bytes: Seq<u8>,
    nwk: Seq<u8>,
    app: Seq<u8>,
    dir: u8,
    f_cnt32: u32,
) -> Result<FrameView, Error> {
    if bytes.len() < 12 {
        Err(Error::Size)
    } else if !spec_mhdr_valid(dir, bytes[0]) {
        Err(Error::Payload)
    } else {
        let fol = (bytes[5] % 16) as int;
        if bytes.len() < 12 + fol {
            Err(Error::Size)
        } else if bytes.len() - 4 > 255 {
            Err(Error::Size)
        } else {
            let dev_addr = bytes.subrange(1, 5);
            let covered = bytes.subrange(0, bytes.len() - 4);
            let stored = bytes.subrange(bytes.len() - 4, bytes.len() as int);
            if spec_mic(nwk, dir, dev_addr, f_cnt32, covered) != stored {
                Err(Error::MIC)
            } else {
                let head = FrameView {
                    mhdr: bytes[0],
                    dev_addr,
                    f_ctrl: bytes[5],
                    f_cnt: (bytes[6] + bytes[7] * 0x100) as u16,
                    f_opts: bytes.subrange(8, 8 + fol),
                    frm: None,
                    mic: stored,
                };
                if bytes.len() - 12 - fol == 0 {
                    Ok(head)
                } else {
                    let port = bytes[8 + fol];
                    if fol > 0 && port == 0 {
                        Err(Error::Payload)
                    } else {
                        let data_ct = bytes.subrange(9 + fol, bytes.len() - 4);
                        let key = if port == 0 {
                            nwk
                        } else {
                            app
                        };
                        Ok(
                            FrameView {
                                frm: Some(
                                    (port, spec_encrypted(key, dir, dev_addr, f_cnt32, data_ct)),
                                ),
                                ..head
                            },
                        )
                    }
                }
            }
        }
    }
}

/// A data frame held as its observable parts. `H` fixes the direction.
#[derive(Clone, Debug)]
pub struct MacPayload<H> {
    pub mhdr: H,
    pub fhdr: FHDR,
    pub frm: Option<FRMPayload>,
    pub mic: MIC,
}

impl<H: Mhdr> View for MacPayload<H> {
    type V = FrameView;

    open spec fn view(&self) -> FrameView {
        FrameView {
            mhdr: self.mhdr.spec_byte(),
            dev_addr: self.fhdr.dev_addr@,
            f_ctrl: self.fhdr.f_ctrl.raw,
            f_cnt: self.fhdr.f_cnt,
            f_opts: self.fhdr.f_opts@,
            frm: match self.frm {
                Some(p) => Some((p.f_port, p.data@)),
                None => None,
            },
            mic: self.mic@,
        }
    }
}

/// Copies `bytes[start..end]` into a fresh vector.
fn copy_range(bytes: &[u8], start: usize, end: usize) -> (r: Vec<u8>)
    requires
        start <= end <= bytes@.len(),
    ensures
        r@ == bytes@.subrange(start as int, end as int),
{
    vstd::slice::slice_to_vec(vstd::slice::slice_subrange(bytes, start, end))
}

/// XORs `data` in place with the keystream of blocks `A1, A2, ...` under the
/// encrypter's key.
fn encrypt_in_place<E: Encrypter>(
    enc: &mut E,
    dir: u8,
    dev_addr: &DevAddr,
    f_cnt: u32,
    data: &mut Vec<u8>,
)
    requires
        old(data)@.len() <= 4080,
    ensures
        final(enc).key() == old(enc).key(),
        final(data)@ == spec_encrypted(old(enc).key(), dir, dev_addr@, f_cnt, old(data)@),
{
    let ghost key = enc.key();
    let ghost orig = data@;
    let n = data.len();
    let mut start: usize = 0;
    while start < n
        invariant
            start % 16 == 0,
            n == data@.len(),
            n == orig.len(),
            n <= 4080,
            enc.key() == key,
            key == old(enc).key(),
            forall|k: int|
                0 <= k < start && k < n ==> data@[k] == orig[k] ^ spec_keystream_byte(
                    key,
                    dir,
                    dev_addr@,
                    f_cnt,
                    k,
                ),
            forall|k: int| start <= k < n ==> data@[k] == orig[k],
        decreases n + 16 - start,
    {
        let mut block: [u8; 16] = [0u8; 16];
        block[0] = 0x01;
        block[5] = dir;
        block[6] = dev_addr.bytes[0];
        block[7] = dev_addr.bytes[1];
        block[8] = dev_addr.bytes[2];
        block[9] = dev_addr.bytes[3];
        block[10] = (f_cnt % 0x100) as u8;
        block[11] = ((f_cnt / 0x100) % 0x100) as u8;
        block[12] = ((f_cnt / 0x10000) % 0x100) as u8;
        block[13] = ((f_cnt / 0x1000000) % 0x100) as u8;
        block[15] = (start / 16 + 1) as u8;
        proof {
            assert(block@ =~= spec_ai(dir, dev_addr@, f_cnt, (start / 16 + 1) as u8));
        }
        enc.encrypt_block(&mut block);
        let mut j: usize = 0;
        while j < 16 && start + j < n
            invariant
                start % 16 == 0,
                start < n <= 4080,
                j <= 16,
                n == data@.len(),
                n == orig.len(),
                enc.key() == key,
                key == old(enc).key(),
                block@ == aes128_block(key, spec_ai(dir, dev_addr@, f_cnt, (start / 16 + 1) as u8)),
                forall|k: int|
                    0 <= k < start && k < n ==> data@[k] == orig[k] ^ spec_keystream_byte(
                        key,
                        dir,
                        dev_addr@,
                        f_cnt,
                        k,
                    ),
                forall|k: int|
                    start <= k < start + j && k < n ==> data@[k] == orig[k] ^ spec_keystream_byte(
                        key,
                        dir,
                        dev_addr@,
                        f_cnt,
                        k,
                    ),
                forall|k: int| start + j <= k < n ==> data@[k] == orig[k],
            decreases 16 - j,
        {
            let v = data[start + j] ^ block[j];
            proof {
                assert((start + j) as int / 16 == start as int / 16);
                assert((start + j) as int % 16 == j as int);
            }
            data[start + j] = v;
            j += 1;
        }
        start += 16;
    }
    proof {
        assert(data@ =~= spec_encrypted(key, dir, dev_addr@, f_cnt, orig));
    }
}

/// Computes the integrity code of `msg`: the leading 4 bytes of the CMAC
/// over `B0 ‖ msg`.
fn compute_mic<M: Mac>(mac: &mut M, dir: u8, dev_addr: &DevAddr, f_cnt: u32, msg: &Vec<u8>) -> (r:
    MIC)
    requires
        msg@.len() <= 255,
    ensures
        final(mac).key() == old(mac).key(),
        r@ == spec_mic(old(mac).key(), dir, dev_addr@, f_cnt, msg@),
{
    let mut v: Vec<u8> = Vec::new();
    v.push(0x49);
    v.push(0);
    v.push(0);
    v.push(0);
    v.push(0);
    v.push(dir);
    v.push(dev_addr.bytes[0]);
    v.push(dev_addr.bytes[1]);
    v.push(dev_addr.bytes[2]);
    v.push(dev_addr.bytes[3]);
    v.push((f_cnt % 0x100) as u8);
    v.push(((f_cnt / 0x100) % 0x100) as u8);
    v.push(((f_cnt / 0x10000) % 0x100) as u8);
    v.push(((f_cnt / 0x1000000) % 0x100) as u8);
    v.push(0);
    v.push(msg.len() as u8);
    proof {
        assert(v@ =~= spec_b0(dir, dev_addr@, f_cnt, msg@.len() as u8));
    }
    let mut i: usize = 0;
    while i < msg.len()
        invariant
            i <= msg@.len(),
            msg@.len() <= 255,
            v@ == spec_b0(dir, dev_addr@, f_cnt, msg@.len() as u8) + msg@.subrange(0, i as int),
            mac.key() == old(mac).key(),
        decreases msg@.len() - i,
    {
        v.push(msg[i]);
        proof {
            assert(v@ =~= spec_b0(dir, dev_addr@, f_cnt, msg@.len() as u8) + msg@.subrange(
                0,
                i as int + 1,
            ));
        }
        i += 1;
    }
    proof {
        assert(v@ =~= spec_b0(dir, dev_addr@, f_cnt, msg@.len() as u8) + msg@);
    }
    mac.calculate_mic(&v)
}

impl<H: Mhdr> MacPayload<H> {
    /// A frame under construction: the given header, no payload yet, and a
    /// zero MIC slot.
    pub fn new(confirmed: bool, fhdr: FHDR) -> (r: Self)
        ensures
            r.mhdr.spec_confirmed() == confirmed,
            spec_mhdr_valid(H::spec_dir(), r.mhdr.spec_byte()),
            (r.mhdr.spec_byte() == 0x80 || r.mhdr.spec_byte() == 0xA0) == confirmed,
            r.fhdr == fhdr,
            r.frm is None,
            r.mic@ == seq![0u8, 0u8, 0u8, 0u8],
    {
        let mic = MIC { bytes: [0u8; 4] };
        proof {
            assert(mic@ =~= seq![0u8, 0u8, 0u8, 0u8]);
        }
        MacPayload { mhdr: H::new(confirmed), fhdr, frm: None, mic }
    }

    pub fn frm_payload(&self) -> (r: &Option<FRMPayload>)
        ensures
            r == &self.frm,
    {
        &self.frm
    }

    /// Replaces the frame payload.
    pub fn set_frm_payload(&mut self, frm: Option<FRMPayload>)
        ensures
            final(self).mhdr == old(self).mhdr,
            final(self).fhdr == old(self).fhdr,
            final(self).mic == old(self).mic,
            final(self).frm == frm,
    {
        self.frm = frm;
    }

    pub fn mic(&self) -> (r: MIC)
        ensures
            r == self.mic,
    {
        self.mic
    }

    /// The integrity code this direction gives to the message bytes, under
    /// the network session key and this frame's device address.
    pub fn calculate_mic<C: Crypto>(&self, crypto: &mut C, f_cnt: u32, msg: &Vec<u8>) -> (r: MIC)
        requires
            msg@.len() <= 255,
        ensures
            forall|k: Key| final(crypto).key_bytes(k) == old(crypto).key_bytes(k),
            r@ == spec_mic(
                old(crypto).key_bytes(Key::Network),
                H::spec_dir(),
                self.fhdr.dev_addr@,
                f_cnt,
                msg@,
            ),
    {
        let mut mac = crypto.get_mac();
        compute_mic(&mut mac, H::dir(), &self.fhdr.dev_addr, f_cnt, msg)
    }

    /// Writes the frame: header, port and encrypted payload, then the MIC
    /// over everything before it, using `f_cnt` as the full 32-bit counter.
    /// Fails with `Payload` on an FOpts/port-0 clash and with `Size` when
    /// the MIC-covered prefix would exceed 255 bytes; succeeds otherwise.
    pub fn build<C: Crypto>(&self, f_cnt: u32, crypto: &mut C) -> (r: Result<Vec<u8>, Error>)
        requires
            self.fhdr.wf(),
        ensures
            forall|k: Key| final(crypto).key_bytes(k) == old(crypto).key_bytes(k),
            (r is Ok) <==> (!self@.port_clash() && self@.fits()),
            (r == Err::<Vec<u8>, Error>(Error::Payload)) <==> self@.port_clash(),
            (r == Err::<Vec<u8>, Error>(Error::Size)) <==> (!self@.port_clash() && !self@.fits()),
            r matches Ok(v) ==> v@ == spec_encode_frame(
                self@,
                old(crypto).key_bytes(Key::Network),
                old(crypto).key_bytes(Key::Application),
                H::spec_dir(),
                f_cnt,
            ),
    {
        let fol = self.fhdr.f_opts.len();
        match &self.frm {
            Some(p) => {
                if fol > 0 && p.f_port == 0 {
                    return Err(Error::Payload);
                }
                if p.data.len() > 246 || 8 + fol + 1 + p.data.len() > 255 {
                    return Err(Error::Size);
                }
            },
            None => {
                assert(8 + fol <= 255);
            },
        }
        let mut buf: Vec<u8> = Vec::new();
        buf.push(self.mhdr.byte());
        buf.push(self.fhdr.dev_addr.bytes[0]);
        buf.push(self.fhdr.dev_addr.bytes[1]);
        buf.push(self.fhdr.dev_addr.bytes[2]);
        buf.push(self.fhdr.dev_addr.bytes[3]);
        buf.push(self.fhdr.f_ctrl.raw);
        buf.push((self.fhdr.f_cnt % 0x100) as u8);
        buf.push((self.fhdr.f_cnt / 0x100) as u8);
        proof {
            assert(buf@ =~= self@.header_bytes().subrange(0, 8));
        }
        let mut i: usize = 0;
        while i < self.fhdr.f_opts.len()
            invariant
                i <= self.fhdr.f_opts@.len(),
                self.fhdr.f_opts@.len() + 8 <= self@.header_bytes().len(),
                buf@ == self@.header_bytes().subrange(0, 8 + i as int),
            decreases self.fhdr.f_opts@.len() - i,
        {
            buf.push(self.fhdr.f_opts[i]);
            proof {
                assert(buf@ =~= self@.header_bytes().subrange(0, 8 + i as int + 1));
            }
            i += 1;
        }
        proof {
            assert(buf@ =~= self@.header_bytes());
        }
        match &self.frm {
            Some(p) => {
                buf.push(p.f_port);
                let key = if p.f_port == 0 {
                    Key::Network
                } else {
                    Key::Application
                };
                let mut enc = crypto.get_encrypter(key);
                let mut d = vstd::slice::slice_to_vec(p.data.as_slice());
                encrypt_in_place(&mut enc, H::dir(), &self.fhdr.dev_addr, f_cnt, &mut d);
                let ghost cipher = self@.cipher_bytes(
                    old(crypto).key_bytes(Key::Network),
                    old(crypto).key_bytes(Key::Application),
                    H::spec_dir(),
                    f_cnt,
                );
                proof {
                    assert(buf@ + d@ =~= cipher);
                }
                let mut j: usize = 0;
                let dlen = d.len();
                while j < dlen
                    invariant
                        j <= dlen,
                        dlen == d@.len(),
                        buf@ + d@.skip(j as int) == cipher,
                        cipher == self@.cipher_bytes(
                            old(crypto).key_bytes(Key::Network),
                            old(crypto).key_bytes(Key::Application),
                            H::spec_dir(),
                            f_cnt,
                        ),
                    decreases dlen - j,
                {
                    buf.push(d[j]);
                    proof {
                        assert(buf@ + d@.skip(j as int + 1) =~= cipher);
                    }
                    j += 1;
                }
                proof {
                    assert(d@.skip(dlen as int) =~= Seq::<u8>::empty());
                    assert(buf@ =~= cipher);
                }
            },
            None => {
                proof {
                    assert(buf@ =~= self@.cipher_bytes(
                        old(crypto).key_bytes(Key::Network),
                        old(crypto).key_bytes(Key::Application),
                        H::spec_dir(),
                        f_cnt,
                    ));
                }
            },
        }
        let mic = self.calculate_mic(crypto, f_cnt, &buf);
        buf.push(mic.bytes[0]);
        buf.push(mic.bytes[1]);
        buf.push(mic.bytes[2]);
        buf.push(mic.bytes[3]);
        proof {
            assert(mic.bytes@ =~= mic@);
            assert(buf@ =~= spec_encode_frame(
                self@,
                old(crypto).key_bytes(Key::Network),
                old(crypto).key_bytes(Key::Application),
                H::spec_dir(),
                f_cnt,
            ));
        }
        Ok(buf)
    }

    /// Validates and decodes one frame: checks the MHDR and the sizes,
    /// verifies the MIC over everything before it, and only then decrypts
    /// the payload, using `f_cnt` as the full 32-bit counter. The returned
    /// frame carries the plaintext payload and the stored MIC.
    pub fn new_from_encrypted<C: Crypto>(bytes: &[u8], f_cnt: u32, crypto: &mut C) -> (r: Result<
        Self,
        Error,
    >)
        ensures
            forall|k: Key| final(crypto).key_bytes(k) == old(crypto).key_bytes(k),
            ({
                let decoded = spec_decode_frame(
                    bytes@,
                    old(crypto).key_bytes(Key::Network),
                    old(crypto).key_bytes(Key::Application),
                    H::spec_dir(),
                    f_cnt,
                );
                match r {
                    Ok(d) => decoded == Ok::<FrameView, Error>(d@) && d.fhdr.wf(),
                    Err(e) => decoded == Err::<FrameView, Error>(e),
                }
            }),
    {
        let n = bytes.len();
        if n < 12 {
            return Err(Error::Size);
        }
        let mhdr = match H::from_byte(bytes[0]) {
            Some(h) => h,
            None => {
                return Err(Error::Payload);
            },
        };
        let fol = (bytes[5] % 16) as usize;
        if n - 12 < fol {
            return Err(Error::Size);
        }
        if n - 4 > 255 {
            return Err(Error::Size);
        }
        let dev_addr = DevAddr { bytes: [bytes[1], bytes[2], bytes[3], bytes[4]] };
        proof {
            assert(dev_addr@ =~= bytes@.subrange(1, 5));
        }
        let covered = copy_range(bytes, 0, n - 4);
        let mut mac = crypto.get_mac();
        let computed = compute_mic(&mut mac, H::dir(), &dev_addr, f_cnt, &covered);
        let stored: [u8; 4] = [bytes[n - 4], bytes[n - 3], bytes[n - 2], bytes[n - 1]];
        let ghost stored_seq = bytes@.subrange(n as int - 4, n as int);
        proof {
            assert(stored@ =~= stored_seq);
        }
        if !(computed.bytes[0] == stored[0] && computed.bytes[1] == stored[1] && computed.bytes[2]
            == stored[2] && computed.bytes[3] == stored[3]) {
            proof {
                assert(computed@ != stored_seq);
            }
            return Err(Error::MIC);
        }
        proof {
            assert(computed@ =~= stored_seq);
        }
        let f_cnt16: u16 = (bytes[6] as u16) + (bytes[7] as u16) * 0x100;
        let f_opts = copy_range(bytes, 8, 8 + fol);
        let fhdr = FHDR { dev_addr, f_ctrl: FCtrl { raw: bytes[5] }, f_cnt: f_cnt16, f_opts };
        if n - 12 - fol == 0 {
            let r = MacPayload { mhdr, fhdr, frm: None, mic: MIC { bytes: stored } };
            proof {
                let decoded = spec_decode_frame(
                    bytes@,
                    old(crypto).key_bytes(Key::Network),
                    old(crypto).key_bytes(Key::Application),
                    H::spec_dir(),
                    f_cnt,
                );
                assert(decoded matches Ok(fv) && fv =~= r@);
            }
            Ok(r)
        } else {
            let port = bytes[8 + fol];
            if fol > 0 && port == 0 {
                return Err(Error::Payload);
            }
            let mut data = copy_range(bytes, 9 + fol, n - 4);
            let key = if port == 0 {
                Key::Network
            } else {
                Key::Application
            };
            let mut enc = crypto.get_encrypter(key);
            encrypt_in_place(&mut enc, H::dir(), &fhdr.dev_addr, f_cnt, &mut data);
            let r = MacPayload {
                mhdr,
                fhdr,
                frm: Some(FRMPayload { f_port: port, data }),
                mic: MIC { bytes: stored },
            };
            proof {
                let decoded = spec_decode_frame(
                    bytes@,
                    old(crypto).key_bytes(Key::Network),
                    old(crypto).key_bytes(Key::Application),
                    H::spec_dir(),
                    f_cnt,
                );
                assert(decoded matches Ok(fv) && fv =~= r@);
            }
            Ok(r)
        }
    }
}

/// Decoding inverts encoding: a well-formed frame written with some keys and
/// counter reads back, under the same keys and counter, as the same frame,
/// its MIC slot holding the code the encoder appended.
pub proof fn lemma_frame_roundtrip(f: FrameView, nwk: Seq<u8>, app: Seq<u8>, dir: u8, f_cnt: u32)
    requires
        f.wf(dir),
    ensures
        spec_decode_frame(spec_encode_frame(f, nwk, app, dir, f_cnt), nwk, app, dir, f_cnt) == Ok::<
            FrameView,
            Error,
        >(
            FrameView {
                mic: spec_mic(nwk, dir, f.dev_addr, f_cnt, f.cipher_bytes(nwk, app, dir, f_cnt)),
                ..f
            },
        ),
{
    let c = f.cipher_bytes(nwk, app, dir, f_cnt);
    let m = spec_mic(nwk, dir, f.dev_addr, f_cnt, c);
    let bytes = spec_encode_frame(f, nwk, app, dir, f_cnt);
    let hdr = f.header_bytes();
    assert(hdr.len() == 8 + f.f_opts.len());
    assert(c.len() == f.covered_len());
    assert(m.len() == 4);
    assert(bytes.len() == c.len() + 4);
    assert(bytes[0] == f.mhdr);
    assert(bytes[5] == f.f_ctrl);
    assert(bytes.len() >= 12 + f.f_ctrl % 16);
    assert(bytes.subrange(1, 5) =~= f.dev_addr);
    assert(bytes.subrange(0, bytes.len() - 4) =~= c);
    assert(bytes.subrange(bytes.len() - 4, bytes.len() as int) =~= m);
    assert(bytes[6] == f.f_cnt % 0x100 && bytes[7] == f.f_cnt / 0x100);
    assert((bytes[6] + bytes[7] * 0x100) as u16 == f.f_cnt);
    let fol = f.f_opts.len() as int;
    assert(bytes.subrange(8, 8 + fol) =~= f.f_opts);
    match f.frm {
        None => {
            assert(bytes.len() - 12 - fol == 0);
            let decoded = spec_decode_frame(bytes, nwk, app, dir, f_cnt);
            assert(decoded matches Ok(fv) && fv =~= FrameView { mic: m, ..f });
        },
        Some((port, data)) => {
            assert(bytes.len() - 12 - fol == 1 + data.len());
            assert(bytes[8 + fol] == port);
            assert(bytes.subrange(9 + fol, bytes.len() - 4) =~= spec_encrypted(
                if port == 0 {
                    nwk
                } else {
                    app
                },
                dir,
                f.dev_addr,
                f_cnt,
                data,
            ));
            lemma_encrypt_involutive(
                if port == 0 {
                    nwk
                } else {
                    app
                },
                dir,
                f.dev_addr,
                f_cnt,
                data,
            );
            let decoded = spec_decode_frame(bytes, nwk, app, dir, f_cnt);
            assert(decoded matches Ok(fv) && fv =~= FrameView { mic: m, ..f });
        },
    }
}

/// A byte span shorter than the minimal frame (MHDR, bare FHDR, MIC) is
/// refused with `Size` before anything else is looked at.
pub proof fn lemma_short_frame_fails(
    bytes: Seq<u8>,
    nwk: Seq<u8>,
    app: Seq<u8>,
    dir: u8,
    f_cnt: u32,
)
    requires
        bytes.len() < 12,
    ensures
        spec_decode_frame(bytes, nwk, app, dir, f_cnt) == Err::<FrameView, Error>(Error::Size),
{
}

/// Corrupting one byte of the MIC-covered region of a frame that decodes is
/// answered with `MIC`, provided the corrupted frame still carries an MHDR
/// of the direction and sizes that parse (otherwise `Payload` or `Size`
/// precede the integrity check), and provided the truncated CMAC of the
/// corrupted prefix does not collide with the original one.
pub proof fn lemma_corrupt_body_fails_mic(
    bytes: Seq<u8>,
    altered: Seq<u8>,
    i: int,
    nwk: Seq<u8>,
    app: Seq<u8>,
    dir: u8,
    f_cnt: u32,
)
    requires
        spec_decode_frame(bytes, nwk, app, dir, f_cnt) is Ok,
        altered.len() == bytes.len(),
        0 <= i < bytes.len() - 4,
        altered[i] != bytes[i],
        forall|j: int| 0 <= j < bytes.len() && j != i ==> altered[j] == bytes[j],
        spec_mhdr_valid(dir, altered[0]),
        12 + altered[5] % 16 <= altered.len(),
        spec_mic(
            nwk,
            dir,
            altered.subrange(1, 5),
            f_cnt,
            altered.subrange(0, altered.len() - 4),
        ) != spec_mic(nwk, dir, bytes.subrange(1, 5), f_cnt, bytes.subrange(0, bytes.len() - 4)),
    ensures
        spec_decode_frame(altered, nwk, app, dir, f_cnt) == Err::<FrameView, Error>(Error::MIC),
{
    assert(bytes.len() >= 12);
    assert(bytes.len() - 4 <= 255);
    assert(altered.subrange(altered.len() - 4, altered.len() as int) =~= bytes.subrange(
        bytes.len() - 4,
        bytes.len() as int,
    ));
    assert(spec_mic(nwk, dir, bytes.subrange(1, 5), f_cnt, bytes.subrange(0, bytes.len() - 4))
        == bytes.subrange(bytes.len() - 4, bytes.len() as int));
}

/// Corrupting any of the four MIC bytes of a frame that decodes is answered
/// with `MIC`, unconditionally: the code recomputed over the unchanged
/// prefix still equals the original, which the stored bytes no longer do.
pub proof fn lemma_corrupt_mic_fails_mic(
    bytes: Seq<u8>,
    altered: Seq<u8>,
    i: int,
    nwk: Seq<u8>,
    app: Seq<u8>,
    dir: u8,
    f_cnt: u32,
)
    requires
        spec_decode_frame(bytes, nwk, app, dir, f_cnt) is Ok,
        altered.len() == bytes.len(),
        bytes.len() - 4 <= i < bytes.len(),
        altered[i] != bytes[i],
        forall|j: int| 0 <= j < bytes.len() && j != i ==> altered[j] == bytes[j],
    ensures
        spec_decode_frame(altered, nwk, app, dir, f_cnt) == Err::<FrameView, Error>(Error::MIC),
{
    assert(bytes.len() >= 12);
    assert(altered.subrange(0, altered.len() - 4) =~= bytes.subrange(0, bytes.len() - 4));
    assert(altered.subrange(1, 5) =~= bytes.subrange(1, 5));
    assert(spec_mic(nwk, dir, bytes.subrange(1, 5), f_cnt, bytes.subrange(0, bytes.len() - 4))
        == bytes.subrange(bytes.len() - 4, bytes.len() as int));
    let x = i - (bytes.len() - 4);
    assert(altered.subrange(altered.len() - 4, altered.len() as int)[x] == altered[i]);
    assert(bytes.subrange(bytes.len() - 4, bytes.len() as int)[x] == bytes[i]);
    assert(altered.subrange(altered.len() - 4, altered.len() as int) != bytes.subrange(
        bytes.len() - 4,
        bytes.len() as int,
    ));
}

/// The trailing byte of `B0` is exactly the length of the MIC-covered
/// prefix handed to the CMAC.
pub proof fn lemma_b0_msg_len(dir: u8, dev_addr: Seq<u8>, f_cnt: u32, msg_len: u8)
    requires
        dev_addr.len() == 4,
    ensures
        spec_b0(dir, dev_addr, f_cnt, msg_len).len() == 16,
        spec_b0(dir, dev_addr, f_cnt, msg_len)[15] == msg_len,
{
}

/// Altering the `msg_len` byte of `B0` alters the CMAC input: two different
/// length bytes give two different byte sequences to the MAC.
pub proof fn lemma_b0_msg_len_distinguishes(
    dir: u8,
    dev_addr: Seq<u8>,
    f_cnt: u32,
    m1: u8,
    m2: u8,
    msg: Seq<u8>,
)
    requires
        dev_addr.len() == 4,
        m1 != m2,
    ensures
        spec_b0(dir, dev_addr, f_cnt, m1) + msg != spec_b0(dir, dev_addr, f_cnt, m2) + msg,
{
    let a = spec_b0(dir, dev_addr, f_cnt, m1) + msg;
    let b = spec_b0(dir, dev_addr, f_cnt, m2) + msg;
    assert(a[15] == m1 && b[15] == m2);
}

} // verus!
