//! Uplink MAC commands (end-device to network server) and their serializer.
//!
//! `spec_encode_uplink` is the reference wire image of a command sequence;
//! `encode_maccommands` is proved against it.

use vstd::prelude::*;

use crate::mac_command::{
    DEVICE_TIME_CID, DEV_STATUS_CID, DI_CHANNEL_CID, DUTY_CYCLE_CID, LINK_ADR_CID, LINK_CHECK_CID,
    NEW_CHANNEL_CID, RX_PARAM_SETUP_CID, RX_TIMING_SETUP_CID, TX_PARAM_SETUP_CID,
};
use crate::Error;

verus! {

/// Bit 0: channel_mask_ack; bit 1: data_rate_ack; bit 2: power_ack;
/// bits 3-7: RFU.
#[derive(Clone, Copy, Debug, PartialEq, Eq)]
pub struct LinkAdrAnsStatus {
    pub raw: u8,
}

impl LinkAdrAnsStatus {
    pub fn new() -> (r: Self)
        ensures
            r.raw == 0,
    {
        LinkAdrAnsStatus { raw: 0 }
    }

    pub fn channel_mask_ack(&self) -> (r: bool)
        ensures
            r == (self.raw & 0x01 != 0),
    {
        self.raw & 0x01 != 0
    }

    pub fn with_channel_mask_ack(self, b: bool) -> (r: Self)
        ensures
            r.raw == if b {
                self.raw | 0x01
            } else {
                self.raw & 0xFE
            },
    {
        LinkAdrAnsStatus { raw: if b { self.raw | 0x01 } else { self.raw & 0xFE } }
    }

    pub fn data_rate_ack(&self) -> (r: bool)
        ensures
            r == (self.raw & 0x02 != 0),
    {
        self.raw & 0x02 != 0
    }

    pub fn with_data_rate_ack(self, b: bool) -> (r: Self)
        ensures
            r.raw == if b {
                self.raw | 0x02
            } else {
                self.raw & 0xFD
            },
    {
        LinkAdrAnsStatus { raw: if b { self.raw | 0x02 } else { self.raw & 0xFD } }
    }

    pub fn power_ack(&self) -> (r: bool)
        ensures
            r == (self.raw & 0x04 != 0),
    {
        self.raw & 0x04 != 0
    }

    pub fn with_power_ack(self, b: bool) -> (r: Self)
        ensures
            r.raw == if b {
                self.raw | 0x04
            } else {
                self.raw & 0xFB
            },
    {
        LinkAdrAnsStatus { raw: if b { self.raw | 0x04 } else { self.raw & 0xFB } }
    }
}

/// Answer to a data-rate adaptation request.
#[derive(Clone, Copy, Debug, PartialEq, Eq)]
pub struct LinkADRAns {
    pub status: LinkAdrAnsStatus,
}

/// Bit 0: channel_ack; bit 1: rx2_data_rate_ack; bit 2:
/// rx1_data_rate_offset_ack; bits 3-7: RFU.
#[derive(Clone, Copy, Debug, PartialEq, Eq)]
pub struct RXParamSetupAnsStatus {
    pub raw: u8,
}

impl RXParamSetupAnsStatus {
    pub fn new() -> (r: Self)
        ensures
            r.raw == 0,
    {
        RXParamSetupAnsStatus { raw: 0 }
    }

    pub fn channel_ack(&self) -> (r: bool)
        ensures
            r == (self.raw & 0x01 != 0),
    {
        self.raw & 0x01 != 0
    }

    pub fn with_channel_ack(self, b: bool) -> (r: Self)
        ensures
            r.raw == if b {
                self.raw | 0x01
            } else {
                self.raw & 0xFE
            },
    {
        RXParamSetupAnsStatus { raw: if b { self.raw | 0x01 } else { self.raw & 0xFE } }
    }

    pub fn rx2_data_rate_ack(&self) -> (r: bool)
        ensures
            r == (self.raw & 0x02 != 0),
    {
        self.raw & 0x02 != 0
    }

    pub fn with_rx2_data_rate_ack(self, b: bool) -> (r: Self)
        ensures
            r.raw == if b {
                self.raw | 0x02
            } else {
                self.raw & 0xFD
            },
    {
        RXParamSetupAnsStatus { raw: if b { self.raw | 0x02 } else { self.raw & 0xFD } }
    }

    pub fn rx1_data_rate_offset_ack(&self) -> (r: bool)
        ensures
            r == (self.raw & 0x04 != 0),
    {
        self.raw & 0x04 != 0
    }

    pub fn with_rx1_data_rate_offset_ack(self, b: bool) -> (r: Self)
        ensures
            r.raw == if b {
                self.raw | 0x04
            } else {
                self.raw & 0xFB
            },
    {
        RXParamSetupAnsStatus { raw: if b { self.raw | 0x04 } else { self.raw & 0xFB } }
    }
}

/// Answer to a reception-window parameter request.
#[derive(Clone, Copy, Debug, PartialEq, Eq)]
pub struct RXParamSetupAns {
    pub status: RXParamSetupAnsStatus,
}

/// Bits 0-5: snr, a 6-bit two's-complement value; bits 6-7: RFU.
#[derive(Clone, Copy, Debug, PartialEq, Eq)]
pub struct DevStatusAnsRadioStatus {
    pub raw: u8,
}

impl DevStatusAnsRadioStatus {
    pub fn new() -> (r: Self)
        ensures
            r.raw == 0,
    {
        DevStatusAnsRadioStatus { raw: 0 }
    }

    /// The signal-to-noise ratio read from the low 6 bits, sign-extended.
    pub open spec fn spec_snr(self) -> int {
        if self.raw % 64 >= 32 {
            self.raw % 64 - 64
        } else {
            (self.raw % 64) as int
        }
    }

    pub fn snr(&self) -> (r: i8)
        ensures
            r == self.spec_snr(),
    {
        let low: u8 = self.raw % 64;
        if low >= 32 {
            (low as i8) - 64
        } else {
            low as i8
        }
    }

    pub fn with_snr(self, v: i8) -> (r: Self)
        requires
            -32 <= v < 32,
        ensures
            r.raw == (self.raw / 64) * 64 + if v < 0 {
                v + 64
            } else {
                v as int
            },
            r.spec_snr() == v,
    {
        let low: u8 = if v < 0 {
            (v + 64) as u8
        } else {
            v as u8
        };
        DevStatusAnsRadioStatus { raw: (self.raw / 64) * 64 + low }
    }
}

/// Device status answer: radio status then battery level on the wire.
#[derive(Clone, Copy, Debug, PartialEq, Eq)]
pub struct DevStatusAns {
    pub radio_status: DevStatusAnsRadioStatus,
    pub battery: u8,
}

/// Bit 0: channel_freq_ok; bit 1: data_rate_range_ok; bits 2-7: RFU.
#[derive(Clone, Copy, Debug, PartialEq, Eq)]
pub struct NewChannelAnsStatus {
    pub raw: u8,
}

impl NewChannelAnsStatus {
    pub fn new() -> (r: Self)
        ensures
            r.raw == 0,
    {
        NewChannelAnsStatus { raw: 0 }
    }

    pub fn channel_freq_ok(&self) -> (r: bool)
        ensures
            r == (self.raw & 0x01 != 0),
    {
        self.raw & 0x01 != 0
    }

    pub fn with_channel_freq_ok(self, b: bool) -> (r: Self)
        ensures
            r.raw == if b {
                self.raw | 0x01
            } else {
                self.raw & 0xFE
            },
    {
        NewChannelAnsStatus { raw: if b { self.raw | 0x01 } else { self.raw & 0xFE } }
    }

    pub fn data_rate_range_ok(&self) -> (r: bool)
        ensures
            r == (self.raw & 0x02 != 0),
    {
        self.raw & 0x02 != 0
    }

    pub fn with_data_rate_range_ok(self, b: bool) -> (r: Self)
        ensures
            r.raw == if b {
                self.raw | 0x02
            } else {
                self.raw & 0xFD
            },
    {
        NewChannelAnsStatus { raw: if b { self.raw | 0x02 } else { self.raw & 0xFD } }
    }
}

/// Answer to a new-channel creation request.
#[derive(Clone, Copy, Debug, PartialEq, Eq)]
pub struct NewChannelAns {
    pub status: NewChannelAnsStatus,
}

/// Bits 0-2: del; bits 3-7: RFU.
#[derive(Clone, Copy, Debug, PartialEq, Eq)]
pub struct RxTimingsSetting {
    pub raw: u8,
}

impl RxTimingsSetting {
    pub fn new() -> (r: Self)
        ensures
            r.raw == 0,
    {
        RxTimingsSetting { raw: 0 }
    }

    pub fn del(&self) -> (r: u8)
        ensures
            r == self.raw & 0x07,
    {
        self.raw & 0x07
    }

    pub fn with_del(self, v: u8) -> (r: Self)
        requires
            v < 8,
        ensures
            r.raw == (self.raw & 0xF8) | v,
    {
        RxTimingsSetting { raw: (self.raw & 0xF8) | v }
    }
}

/// Answer to a reception-slot timing request. The answer carries no
/// payload bytes on the wire; the settings record mirrors what was
/// acknowledged.
#[derive(Clone, Copy, Debug, PartialEq, Eq)]
pub struct RXTimingSetupAns {
    pub rx_timings_settings: RxTimingsSetting,
}

/// Bit 0: channel_frequency_ok; bit 1: uplink_frequency_exists;
/// bits 2-7: RFU.
#[derive(Clone, Copy, Debug, PartialEq, Eq)]
pub struct DIChannelAnsStatus {
    pub raw: u8,
}

impl DIChannelAnsStatus {
    pub fn new() -> (r: Self)
        ensures
            r.raw == 0,
    {
        DIChannelAnsStatus { raw: 0 }
    }

    pub fn channel_frequency_ok(&self) -> (r: bool)
        ensures
            r == (self.raw & 0x01 != 0),
    {
        self.raw & 0x01 != 0
    }

    pub fn with_channel_frequency_ok(self, b: bool) -> (r: Self)
        ensures
            r.raw == if b {
                self.raw | 0x01
            } else {
                self.raw & 0xFE
            },
    {
        DIChannelAnsStatus { raw: if b { self.raw | 0x01 } else { self.raw & 0xFE } }
    }

    pub fn uplink_frequency_exists(&self) -> (r: bool)
        ensures
            r == (self.raw & 0x02 != 0),
    {
        self.raw & 0x02 != 0
    }

    pub fn with_uplink_frequency_exists(self, b: bool) -> (r: Self)
        ensures
            r.raw == if b {
                self.raw | 0x02
            } else {
                self.raw & 0xFD
            },
    {
        DIChannelAnsStatus { raw: if b { self.raw | 0x02 } else { self.raw & 0xFD } }
    }
}

/// Answer to a downlink-channel frequency change request.
#[derive(Clone, Copy, Debug, PartialEq, Eq)]
pub struct DIChannelAns {
    pub status: DIChannelAnsStatus,
}

/// An uplink MAC command, tagged on the wire by its CID byte.
#[derive(Clone, Copy, Debug, PartialEq, Eq)]
pub enum UplinkMacCommmand {
    LinkCheckReq,
    LinkADRAns(LinkADRAns),
    DutyCycleAns,
    RXParamSetupAns(RXParamSetupAns),
    DevStatusAns(DevStatusAns),
    NewChannelAns(NewChannelAns),
    RXTimingSetupAns,
    TxParamSetupAns,
    DlChannelAns(DIChannelAns),
    DeviceTimeReq,
}

impl UplinkMacCommmand {
    /// The CID byte that tags this command on the wire.
    pub open spec fn spec_cid(self) -> u8 {
        match self {
            UplinkMacCommmand::LinkCheckReq => LINK_CHECK_CID,
            UplinkMacCommmand::LinkADRAns(_) => LINK_ADR_CID,
            UplinkMacCommmand::DutyCycleAns => DUTY_CYCLE_CID,
            UplinkMacCommmand::RXParamSetupAns(_) => RX_PARAM_SETUP_CID,
            UplinkMacCommmand::DevStatusAns(_) => DEV_STATUS_CID,
            UplinkMacCommmand::NewChannelAns(_) => NEW_CHANNEL_CID,
            UplinkMacCommmand::RXTimingSetupAns => RX_TIMING_SETUP_CID,
            UplinkMacCommmand::TxParamSetupAns => TX_PARAM_SETUP_CID,
            UplinkMacCommmand::DlChannelAns(_) => DI_CHANNEL_CID,
            UplinkMacCommmand::DeviceTimeReq => DEVICE_TIME_CID,
        }
    }

    /// The payload bytes of this command, CID excluded.
    pub open spec fn spec_payload(self) -> Seq<u8> {
        match self {
            UplinkMacCommmand::LinkCheckReq => Seq::empty(),
            UplinkMacCommmand::LinkADRAns(c) => seq![c.status.raw],
            UplinkMacCommmand::DutyCycleAns => Seq::empty(),
            UplinkMacCommmand::RXParamSetupAns(c) => seq![c.status.raw],
            UplinkMacCommmand::DevStatusAns(c) => seq![c.radio_status.raw, c.battery],
            UplinkMacCommmand::NewChannelAns(c) => seq![c.status.raw],
            UplinkMacCommmand::RXTimingSetupAns => Seq::empty(),
            UplinkMacCommmand::TxParamSetupAns => Seq::empty(),
            UplinkMacCommmand::DlChannelAns(c) => seq![c.status.raw],
            UplinkMacCommmand::DeviceTimeReq => Seq::empty(),
        }
    }

    /// The wire bytes of this command: CID then payload.
    pub open spec fn spec_bytes(self) -> Seq<u8> {
        seq![self.spec_cid()] + self.spec_payload()
    }

    /// The CID byte that tags this command on the wire.
    pub fn cid(&self) -> (r: u8)
        ensures
            r == self.spec_cid(),
    {
        match self {
            UplinkMacCommmand::LinkCheckReq => LINK_CHECK_CID,
            UplinkMacCommmand::LinkADRAns(_) => LINK_ADR_CID,
            UplinkMacCommmand::DutyCycleAns => DUTY_CYCLE_CID,
            UplinkMacCommmand::RXParamSetupAns(_) => RX_PARAM_SETUP_CID,
            UplinkMacCommmand::DevStatusAns(_) => DEV_STATUS_CID,
            UplinkMacCommmand::NewChannelAns(_) => NEW_CHANNEL_CID,
            UplinkMacCommmand::RXTimingSetupAns => RX_TIMING_SETUP_CID,
            UplinkMacCommmand::TxParamSetupAns => TX_PARAM_SETUP_CID,
            UplinkMacCommmand::DlChannelAns(_) => DI_CHANNEL_CID,
            UplinkMacCommmand::DeviceTimeReq => DEVICE_TIME_CID,
        }
    }

    /// The payload bytes of this command, CID excluded.
    pub fn as_bytes(&self) -> (r: Vec<u8>)
        ensures
            r@ == self.spec_payload(),
    {
        let mut out: Vec<u8> = Vec::new();
        match self {
            UplinkMacCommmand::LinkCheckReq => {},
            UplinkMacCommmand::LinkADRAns(c) => {
                out.push(c.status.raw);
            },
            UplinkMacCommmand::DutyCycleAns => {},
            UplinkMacCommmand::RXParamSetupAns(c) => {
                out.push(c.status.raw);
            },
            UplinkMacCommmand::DevStatusAns(c) => {
                out.push(c.radio_status.raw);
                out.push(c.battery);
            },
            UplinkMacCommmand::NewChannelAns(c) => {
                out.push(c.status.raw);
            },
            UplinkMacCommmand::RXTimingSetupAns => {},
            UplinkMacCommmand::TxParamSetupAns => {},
            UplinkMacCommmand::DlChannelAns(c) => {
                out.push(c.status.raw);
            },
            UplinkMacCommmand::DeviceTimeReq => {},
        }
        proof {
            assert(out@ =~= self.spec_payload());
        }
        out
    }
}

/// The wire bytes of an uplink command sequence.
pub open spec fn spec_encode_uplink(cmds: Seq<UplinkMacCommmand>) -> Seq<u8>
    decreases cmds.len(),
{
    if cmds.len() == 0 {
        Seq::empty()
    } else {
        cmds[0].spec_bytes() + spec_encode_uplink(cmds.skip(1))
    }
}

/// Encoding distributes over concatenation of command sequences.
pub proof fn lemma_encode_uplink_concat(a: Seq<UplinkMacCommmand>, b: Seq<UplinkMacCommmand>)
    ensures
        spec_encode_uplink(a + b) == spec_encode_uplink(a) + spec_encode_uplink(b),
    decreases a.len(),
{
    if a.len() == 0 {
        assert(a + b =~= b);
        assert(spec_encode_uplink(a) + spec_encode_uplink(b) =~= spec_encode_uplink(b));
    } else {
        assert((a + b).skip(1) =~= a.skip(1) + b);
        lemma_encode_uplink_concat(a.skip(1), b);
        assert(spec_encode_uplink(a + b) =~= spec_encode_uplink(a) + spec_encode_uplink(b));
    }
}

/// Serializes a command sequence into the front of `buf` and returns the
/// written length. Fails with `Error::Size`, and only then, when the
/// sequence's wire image is longer than `buf`.
pub fn encode_maccommands(cmds: &Vec<UplinkMacCommmand>, buf: &mut Vec<u8>) -> (r: Result<
    usize,
    Error,
>)
    ensures
        final(buf)@.len() == old(buf)@.len(),
        r is Ok <==> spec_encode_uplink(cmds@).len() <= old(buf)@.len(),
        match r {
            Ok(n) => {
                &&& n == spec_encode_uplink(cmds@).len()
                &&& final(buf)@.subrange(0, n as int) == spec_encode_uplink(cmds@)
                &&& final(buf)@.skip(n as int) == old(buf)@.skip(n as int)
            },
            Err(e) => e == Error::Size,
        },
{
    let mut pos: usize = 0;
    let mut idx: usize = 0;
    while idx < cmds.len()
        invariant
            idx <= cmds@.len(),
            pos <= buf@.len(),
            buf@.len() == old(buf)@.len(),
            pos == spec_encode_uplink(cmds@.subrange(0, idx as int)).len(),
            buf@.subrange(0, pos as int) == spec_encode_uplink(cmds@.subrange(0, idx as int)),
            buf@.skip(pos as int) == old(buf)@.skip(pos as int),
        decreases cmds@.len() - idx,
    {
        let cmd = &cmds[idx];
        let payload_len = cmd.as_bytes().len();
        let len = payload_len + 1;
        proof {
            reveal_with_fuel(spec_encode_uplink, 3);
            assert(cmds@.subrange(0, idx as int) + seq![cmds@[idx as int]] =~= cmds@.subrange(
                0,
                idx as int + 1,
            ));
            lemma_encode_uplink_concat(cmds@.subrange(0, idx as int), seq![cmds@[idx as int]]);
            assert(seq![cmds@[idx as int]].skip(1) =~= Seq::<UplinkMacCommmand>::empty());
            assert(spec_encode_uplink(seq![cmds@[idx as int]]) =~= cmds@[idx as int].spec_bytes());
            assert(cmds@.subrange(0, idx as int + 1) + cmds@.skip(idx as int + 1) =~= cmds@);
            lemma_encode_uplink_concat(cmds@.subrange(0, idx as int + 1), cmds@.skip(idx as int + 1));
        }
        if len > buf.len() - pos {
            assert(spec_encode_uplink(cmds@).len() > old(buf)@.len());
            return Err(Error::Size);
        }
        let ghost prev = buf@;
        buf[pos] = cmd.cid();
        match cmd {
            UplinkMacCommmand::LinkADRAns(c) => {
                buf[pos + 1] = c.status.raw;
            },
            UplinkMacCommmand::RXParamSetupAns(c) => {
                buf[pos + 1] = c.status.raw;
            },
            UplinkMacCommmand::DevStatusAns(c) => {
                buf[pos + 1] = c.radio_status.raw;
                buf[pos + 2] = c.battery;
            },
            UplinkMacCommmand::NewChannelAns(c) => {
                buf[pos + 1] = c.status.raw;
            },
            UplinkMacCommmand::DlChannelAns(c) => {
                buf[pos + 1] = c.status.raw;
            },
            _ => {},
        }
        proof {
            assert(buf@.subrange(pos as int, pos as int + len as int) =~= cmds@[idx as int].spec_bytes());
            assert(buf@.subrange(0, pos as int + len as int) =~= spec_encode_uplink(
                cmds@.subrange(0, idx as int + 1),
            ));
            assert forall|k: int| pos + len <= k < buf@.len() implies buf@[k] == old(buf)@[k] by {
                assert(buf@[k] == prev[k]);
                assert(prev.skip(pos as int)[k - pos] == old(buf)@.skip(pos as int)[k - pos]);
            };
            assert(buf@.skip(pos as int + len as int) =~= old(buf)@.skip(pos as int + len as int));
        }
        pos += len;
        idx += 1;
    }
    proof {
        assert(cmds@.subrange(0, idx as int) =~= cmds@);
    }
    Ok(pos)
}

/// The fixed payload length of the uplink command tagged `cid`, or `None`
/// for a CID outside the uplink vocabulary.
pub open spec fn spec_uplink_payload_len(cid: u8) -> Option<int> {
    if cid == LINK_CHECK_CID {
        Some(0int)
    } else if cid == LINK_ADR_CID {
        Some(1int)
    } else if cid == DUTY_CYCLE_CID {
        Some(0int)
    } else if cid == RX_PARAM_SETUP_CID {
        Some(1int)
    } else if cid == DEV_STATUS_CID {
        Some(2int)
    } else if cid == NEW_CHANNEL_CID {
        Some(1int)
    } else if cid == RX_TIMING_SETUP_CID {
        Some(0int)
    } else if cid == TX_PARAM_SETUP_CID {
        Some(0int)
    } else if cid == DI_CHANNEL_CID {
        Some(1int)
    } else if cid == DEVICE_TIME_CID {
        Some(0int)
    } else {
        None
    }
}

/// The uplink command with CID `cid` and payload `p`.
pub open spec fn spec_parse_uplink_one(cid: u8, p: Seq<u8>) -> UplinkMacCommmand
    recommends
        spec_uplink_payload_len(cid) == Some(p.len() as int),
{
    if cid == LINK_CHECK_CID {
        UplinkMacCommmand::LinkCheckReq
    } else if cid == LINK_ADR_CID {
        UplinkMacCommmand::LinkADRAns(LinkADRAns { status: LinkAdrAnsStatus { raw: p[0] } })
    } else if cid == DUTY_CYCLE_CID {
        UplinkMacCommmand::DutyCycleAns
    } else if cid == RX_PARAM_SETUP_CID {
        UplinkMacCommmand::RXParamSetupAns(
            RXParamSetupAns { status: RXParamSetupAnsStatus { raw: p[0] } },
        )
    } else if cid == DEV_STATUS_CID {
        UplinkMacCommmand::DevStatusAns(
            DevStatusAns {
                radio_status: DevStatusAnsRadioStatus { raw: p[0] },
                battery: p[1],
            },
        )
    } else if cid == NEW_CHANNEL_CID {
        UplinkMacCommmand::NewChannelAns(NewChannelAns { status: NewChannelAnsStatus { raw: p[0] } })
    } else if cid == RX_TIMING_SETUP_CID {
        UplinkMacCommmand::RXTimingSetupAns
    } else if cid == TX_PARAM_SETUP_CID {
        UplinkMacCommmand::TxParamSetupAns
    } else if cid == DI_CHANNEL_CID {
        UplinkMacCommmand::DlChannelAns(DIChannelAns { status: DIChannelAnsStatus { raw: p[0] } })
    } else {
        UplinkMacCommmand::DeviceTimeReq
    }
}

/// The uplink command sequence a byte span means, read as the downlink one.
pub open spec fn spec_decode_uplink(bytes: Seq<u8>) -> Seq<UplinkMacCommmand>
    decreases bytes.len(),
{
    if bytes.len() == 0 {
        Seq::empty()
    } else {
        match spec_uplink_payload_len(bytes[0]) {
            Some(l) => if bytes.len() >= 1 + l {
                seq![spec_parse_uplink_one(bytes[0], bytes.subrange(1, 1 + l))]
                    + spec_decode_uplink(bytes.skip(1 + l))
            } else {
                Seq::empty()
            },
            None => Seq::empty(),
        }
    }
}

/// Decoding inverts encoding: an uplink command sequence written to the wire
/// reads back as exactly the same sequence.
pub proof fn lemma_uplink_maccommand_roundtrip(cmds: Seq<UplinkMacCommmand>)
    ensures
        spec_decode_uplink(spec_encode_uplink(cmds)) == cmds,
    decreases cmds.len(),
{
    if cmds.len() == 0 {
        assert(spec_decode_uplink(spec_encode_uplink(cmds)) =~= cmds);
    } else {
        let c = cmds[0];
        let bytes = spec_encode_uplink(cmds);
        let rest = spec_encode_uplink(cmds.skip(1));
        assert(bytes == c.spec_bytes() + rest);
        assert(bytes[0] == c.spec_cid());
        let l = c.spec_payload().len() as int;
        assert(spec_uplink_payload_len(c.spec_cid()) == Some(l));
        assert(bytes.len() >= 1 + l);
        let p = c.spec_payload();
        assert(bytes.subrange(1, 1 + l) =~= p);
        assert(spec_parse_uplink_one(bytes[0], bytes.subrange(1, 1 + l)) == c);
        assert(bytes.skip(1 + l) =~= rest);
        lemma_uplink_maccommand_roundtrip(cmds.skip(1));
        assert(spec_decode_uplink(bytes) =~= cmds);
    }
}

} // verus!
