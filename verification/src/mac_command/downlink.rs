//! Downlink MAC commands (network server to end-device) and their streaming
//! decoder.
//!
//! Each command is `CID ‖ payload` on the wire, with a fixed payload length
//! per CID. `spec_decode_downlink` is the reference meaning of a byte span as
//! a command sequence; the decoder is proved against it.

use vstd::prelude::*;

use crate::mac_command::{
    DEVICE_TIME_CID, DEV_STATUS_CID, DI_CHANNEL_CID, DUTY_CYCLE_CID, LINK_ADR_CID, LINK_CHECK_CID,
    NEW_CHANNEL_CID, RX_PARAM_SETUP_CID, RX_TIMING_SETUP_CID, TX_PARAM_SETUP_CID,
};

verus! {

/// Answer to a link-check request: demodulation margin and gateway count.
#[derive(Clone, Copy, Debug, PartialEq, Eq)]
pub struct LinkCheckAns {
    pub gw_cnt: u8,
    pub margin: u8,
}

/// Data-rate and transmit-power adaptation request.
#[derive(Clone, Copy, Debug, PartialEq, Eq)]
pub struct LinkADRReq {
    pub data_rate_tx_power: DataRateTXPower,
    pub ch_mask: [u8; 2],
    pub redundancy: Redundancy,
}

/// Bits 0-3: tx_power; bits 4-7: data_rate.
#[derive(Clone, Copy, Debug, PartialEq, Eq)]
pub struct DataRateTXPower {
    pub raw: u8,
}

impl DataRateTXPower {
    pub fn new() -> (r: Self)
        ensures
            r.raw == 0,
    {
        DataRateTXPower { raw: 0 }
    }

    pub fn tx_power(&self) -> (r: u8)
        ensures
            r == self.raw & 0x0F,
    {
        self.raw & 0x0F
    }

    pub fn with_tx_power(self, v: u8) -> (r: Self)
        requires
            v < 16,
        ensures
            r.raw == (self.raw & 0xF0) | v,
    {
        DataRateTXPower { raw: (self.raw & 0xF0) | v }
    }

    pub fn data_rate(&self) -> (r: u8)
        ensures
            r == self.raw >> 4,
    {
        self.raw >> 4
    }

    pub fn with_data_rate(self, v: u8) -> (r: Self)
        requires
            v < 16,
        ensures
            r.raw == (self.raw & 0x0F) | (v << 4),
    {
        DataRateTXPower { raw: (self.raw & 0x0F) | (v << 4) }
    }
}

/// Bits 0-3: nb_trans; bits 4-6: ch_mask_cntl; bit 7: RFU.
#[derive(Clone, Copy, Debug, PartialEq, Eq)]
pub struct Redundancy {
    pub raw: u8,
}

impl Redundancy {
    pub fn new() -> (r: Self)
        ensures
            r.raw == 0,
    {
        Redundancy { raw: 0 }
    }

    pub fn nb_trans(&self) -> (r: u8)
        ensures
            r == self.raw & 0x0F,
    {
        self.raw & 0x0F
    }

    pub fn with_nb_trans(self, v: u8) -> (r: Self)
        requires
            v < 16,
        ensures
            r.raw == (self.raw & 0xF0) | v,
    {
        Redundancy { raw: (self.raw & 0xF0) | v }
    }

    pub fn ch_mask_cntl(&self) -> (r: u8)
        ensures
            r == (self.raw >> 4) & 0x07,
    {
        (self.raw >> 4) & 0x07
    }

    pub fn with_ch_mask_cntl(self, v: u8) -> (r: Self)
        requires
            v < 8,
        ensures
            r.raw == (self.raw & 0x8F) | (v << 4),
    {
        Redundancy { raw: (self.raw & 0x8F) | (v << 4) }
    }
}

/// Duty-cycle limitation request.
#[derive(Clone, Copy, Debug, PartialEq, Eq)]
pub struct DutyCycleReq {
    pub duty_cycle_pl: DutyCyclePl,
}

/// Bits 0-3: max_duty_cycle; bits 4-7: RFU.
#[derive(Clone, Copy, Debug, PartialEq, Eq)]
pub struct DutyCyclePl {
    pub raw: u8,
}

impl DutyCyclePl {
    pub fn new() -> (r: Self)
        ensures
            r.raw == 0,
    {
        DutyCyclePl { raw: 0 }
    }

    pub fn max_duty_cycle(&self) -> (r: u8)
        ensures
            r == self.raw & 0x0F,
    {
        self.raw & 0x0F
    }

    pub fn with_max_duty_cycle(self, v: u8) -> (r: Self)
        requires
            v < 16,
        ensures
            r.raw == (self.raw & 0xF0) | v,
    {
        DutyCyclePl { raw: (self.raw & 0xF0) | v }
    }
}

/// Reception-window parameter request.
#[derive(Clone, Copy, Debug, PartialEq, Eq)]
pub struct RXParamSetupReq {
    pub dl_settings: DlSettings,
    pub frequency: Frequency,
}

/// A 3-byte frequency field: `((b0 << 16) | (b1 << 8) | b2) * 100` Hz.
#[derive(Clone, Copy, Debug, PartialEq, Eq)]
pub struct Frequency(pub [u8; 3]);

impl Frequency {
    /// The frequency in Hz encoded by the three wire bytes.
    pub open spec fn spec_hz(self) -> int {
        ((self.0@[0] * 0x10000) + (self.0@[1] * 0x100) + self.0@[2]) * 100
    }

    pub fn hz(&self) -> (r: u32)
        ensures
            r == self.spec_hz(),
    {
        ((self.0[0] as u32) * 0x10000 + (self.0[1] as u32) * 0x100 + (self.0[2] as u32)) * 100
    }
}

/// Bits 0-3: rx2_data_rate; bits 4-6: rx1_dr_offset; bit 7: RFU.
#[derive(Clone, Copy, Debug, PartialEq, Eq)]
pub struct DlSettings {
    pub raw: u8,
}

impl DlSettings {
    pub fn new() -> (r: Self)
        ensures
            r.raw == 0,
    {
        DlSettings { raw: 0 }
    }

    pub fn rx2_data_rate(&self) -> (r: u8)
        ensures
            r == self.raw & 0x0F,
    {
        self.raw & 0x0F
    }

    pub fn with_rx2_data_rate(self, v: u8) -> (r: Self)
        requires
            v < 16,
        ensures
            r.raw == (self.raw & 0xF0) | v,
    {
        DlSettings { raw: (self.raw & 0xF0) | v }
    }

    pub fn rx1_dr_offset(&self) -> (r: u8)
        ensures
            r == (self.raw >> 4) & 0x07,
    {
        (self.raw >> 4) & 0x07
    }

    pub fn with_rx1_dr_offset(self, v: u8) -> (r: Self)
        requires
            v < 8,
        ensures
            r.raw == (self.raw & 0x8F) | (v << 4),
    {
        DlSettings { raw: (self.raw & 0x8F) | (v << 4) }
    }
}

/// The device-status record (battery level and radio status) that the
/// matching uplink answer reports back. The downlink request that solicits
/// it carries no payload bytes on the wire.
#[derive(Clone, Copy, Debug, PartialEq, Eq)]
pub struct DevStatusReq {
    pub battery: u8,
    pub radio_status: RadioStatus,
}

/// Bits 0-5: snr; bits 6-7: RFU.
#[derive(Clone, Copy, Debug, PartialEq, Eq)]
pub struct RadioStatus {
    pub raw: u8,
}

impl RadioStatus {
    pub fn new() -> (r: Self)
        ensures
            r.raw == 0,
    {
        RadioStatus { raw: 0 }
    }

    pub fn snr(&self) -> (r: u8)
        ensures
            r == self.raw & 0x3F,
    {
        self.raw & 0x3F
    }

    pub fn with_snr(self, v: u8) -> (r: Self)
        requires
            v < 64,
        ensures
            r.raw == (self.raw & 0xC0) | v,
    {
        RadioStatus { raw: (self.raw & 0xC0) | v }
    }
}

/// New-channel creation request.
#[derive(Clone, Copy, Debug, PartialEq, Eq)]
pub struct NewChannelReq {
    pub ch_index: u8,
    pub frequency: Frequency,
    pub dr_range: DRRange,
}

/// Bits 0-3: min_dr; bits 4-7: max_dr.
#[derive(Clone, Copy, Debug, PartialEq, Eq)]
pub struct DRRange {
    pub raw: u8,
}

impl DRRange {
    pub fn new() -> (r: Self)
        ensures
            r.raw == 0,
    {
        DRRange { raw: 0 }
    }

    pub fn min_dr(&self) -> (r: u8)
        ensures
            r == self.raw & 0x0F,
    {
        self.raw & 0x0F
    }

    pub fn with_min_dr(self, v: u8) -> (r: Self)
        requires
            v < 16,
        ensures
            r.raw == (self.raw & 0xF0) | v,
    {
        DRRange { raw: (self.raw & 0xF0) | v }
    }

    pub fn max_dr(&self) -> (r: u8)
        ensures
            r == self.raw >> 4,
    {
        self.raw >> 4
    }

    pub fn with_max_dr(self, v: u8) -> (r: Self)
        requires
            v < 16,
        ensures
            r.raw == (self.raw & 0x0F) | (v << 4),
    {
        DRRange { raw: (self.raw & 0x0F) | (v << 4) }
    }
}

/// Reception-slot timing request.
#[derive(Clone, Copy, Debug, PartialEq, Eq)]
pub struct RXTimingSetupReq {
    pub rx_timings_settings: RxTimingSettings,
}

/// Bits 0-2: del; bits 3-7: RFU.
#[derive(Clone, Copy, Debug, PartialEq, Eq)]
pub struct RxTimingSettings {
    pub raw: u8,
}

impl RxTimingSettings {
    pub fn new() -> (r: Self)
        ensures
            r.raw == 0,
    {
        RxTimingSettings { raw: 0 }
    }

    pub fn del(&self) -> (r: u8)
        ensures
            r == self.raw & 0x07,
    {
        self.raw & 0x07
    }

    pub fn with_del(self, v: u8) -> (r: Self)
        requires
            v < 8,
        ensures
            r.raw == (self.raw & 0xF8) | v,
    {
        RxTimingSettings { raw: (self.raw & 0xF8) | v }
    }
}

/// Transmit-parameter (EIRP and dwell time) request.
#[derive(Clone, Copy, Debug, PartialEq, Eq)]
pub struct TxParamSetupReq {
    pub eirp_dwell_time: EirpDwellTime,
}

/// Bits 0-3: max_eirp; bit 4: uplink_dwell_time; bit 5: downlink_dwell_time;
/// bits 6-7: RFU.
#[derive(Clone, Copy, Debug, PartialEq, Eq)]
pub struct EirpDwellTime {
    pub raw: u8,
}

impl EirpDwellTime {
    pub fn new() -> (r: Self)
        ensures
            r.raw == 0,
    {
        EirpDwellTime { raw: 0 }
    }

    pub fn max_eirp(&self) -> (r: u8)
        ensures
            r == self.raw & 0x0F,
    {
        self.raw & 0x0F
    }

    pub fn with_max_eirp(self, v: u8) -> (r: Self)
        requires
            v < 16,
        ensures
            r.raw == (self.raw & 0xF0) | v,
    {
        EirpDwellTime { raw: (self.raw & 0xF0) | v }
    }

    pub fn uplink_dwell_time(&self) -> (r: bool)
        ensures
            r == (self.raw & 0x10 != 0),
    {
        self.raw & 0x10 != 0
    }

    pub fn with_uplink_dwell_time(self, b: bool) -> (r: Self)
        ensures
            r.raw == if b {
                self.raw | 0x10
            } else {
                self.raw & 0xEF
            },
    {
        EirpDwellTime { raw: if b { self.raw | 0x10 } else { self.raw & 0xEF } }
    }

    pub fn downlink_dwell_time(&self) -> (r: bool)
        ensures
            r == (self.raw & 0x20 != 0),
    {
        self.raw & 0x20 != 0
    }

    pub fn with_downlink_dwell_time(self, b: bool) -> (r: Self)
        ensures
            r.raw == if b {
                self.raw | 0x20
            } else {
                self.raw & 0xDF
            },
    {
        EirpDwellTime { raw: if b { self.raw | 0x20 } else { self.raw & 0xDF } }
    }
}

/// Downlink-channel frequency change request.
#[derive(Clone, Copy, Debug, PartialEq, Eq)]
pub struct DlChannelReq {
    pub ch_index: u8,
    pub frequency: Frequency,
}

/// Network time answer: GPS-epoch seconds (big-endian) and 1/256-s fractions.
#[derive(Clone, Copy, Debug, PartialEq, Eq)]
pub struct DeviceTimeAns {
    pub seconds: [u8; 4],
    pub fractions: u8,
}

impl DeviceTimeAns {
    /// The GPS-epoch time in nanoseconds: big-endian seconds scaled to
    /// nanoseconds plus fractions of 3906250 ns (1/256 s).
    pub open spec fn spec_gps_epoch_nano_seconds(self) -> int {
        (self.seconds@[0] * 0x1000000 + self.seconds@[1] * 0x10000 + self.seconds@[2] * 0x100
            + self.seconds@[3]) * 1000000000 + self.fractions * 3906250
    }

    pub fn gps_epoch_nano_seconds(&self) -> (r: u64)
        ensures
            r == self.spec_gps_epoch_nano_seconds(),
    {
        let secs: u32 = (self.seconds[0] as u32) * 0x1000000 + (self.seconds[1] as u32) * 0x10000
            + (self.seconds[2] as u32) * 0x100 + (self.seconds[3] as u32);
        (secs as u64) * 1000000000 + (self.fractions as u64) * 3906250
    }
}

/// A downlink MAC command, tagged on the wire by its CID byte.
#[derive(Clone, Copy, Debug, PartialEq, Eq)]
pub enum DownlinkMacCommand {
    LinkCheckAns(LinkCheckAns),
    LinkADRReq(LinkADRReq),
    DutyCycleReq(DutyCycleReq),
    RXParamSetupReq(RXParamSetupReq),
    DevStatusReq,
    NewChannelReq(NewChannelReq),
    RXTimingSetupReq(RXTimingSetupReq),
    TxParamSetupReq(TxParamSetupReq),
    DIChannelReq(DlChannelReq),
    DeviceTimeAns(DeviceTimeAns),
}

impl DownlinkMacCommand {
    /// The CID byte that tags this command on the wire.
    pub open spec fn spec_cid(self) -> u8 {
        match self {
            DownlinkMacCommand::LinkCheckAns(_) => LINK_CHECK_CID,
            DownlinkMacCommand::LinkADRReq(_) => LINK_ADR_CID,
            DownlinkMacCommand::DutyCycleReq(_) => DUTY_CYCLE_CID,
            DownlinkMacCommand::RXParamSetupReq(_) => RX_PARAM_SETUP_CID,
            DownlinkMacCommand::DevStatusReq => DEV_STATUS_CID,
            DownlinkMacCommand::NewChannelReq(_) => NEW_CHANNEL_CID,
            DownlinkMacCommand::RXTimingSetupReq(_) => RX_TIMING_SETUP_CID,
            DownlinkMacCommand::TxParamSetupReq(_) => TX_PARAM_SETUP_CID,
            DownlinkMacCommand::DIChannelReq(_) => DI_CHANNEL_CID,
            DownlinkMacCommand::DeviceTimeAns(_) => DEVICE_TIME_CID,
        }
    }

    /// The payload bytes of this command, CID excluded.
    pub open spec fn spec_payload(self) -> Seq<u8> {
        match self {
            DownlinkMacCommand::LinkCheckAns(c) => seq![c.gw_cnt, c.margin],
            DownlinkMacCommand::LinkADRReq(c) => seq![
                c.data_rate_tx_power.raw,
                c.ch_mask@[0],
                c.ch_mask@[1],
                c.redundancy.raw,
            ],
            DownlinkMacCommand::DutyCycleReq(c) => seq![c.duty_cycle_pl.raw],
            DownlinkMacCommand::RXParamSetupReq(c) => seq![
                c.dl_settings.raw,
                c.frequency.0@[0],
                c.frequency.0@[1],
                c.frequency.0@[2],
            ],
            DownlinkMacCommand::DevStatusReq => Seq::empty(),
            DownlinkMacCommand::NewChannelReq(c) => seq![
                c.ch_index,
                c.frequency.0@[0],
                c.frequency.0@[1],
                c.frequency.0@[2],
                c.dr_range.raw,
            ],
            DownlinkMacCommand::RXTimingSetupReq(c) => seq![c.rx_timings_settings.raw],
            DownlinkMacCommand::TxParamSetupReq(c) => seq![c.eirp_dwell_time.raw],
            DownlinkMacCommand::DIChannelReq(c) => seq![
                c.ch_index,
                c.frequency.0@[0],
                c.frequency.0@[1],
                c.frequency.0@[2],
            ],
            DownlinkMacCommand::DeviceTimeAns(c) => seq![
                c.seconds@[0],
                c.seconds@[1],
                c.seconds@[2],
                c.seconds@[3],
                c.fractions,
            ],
        }
    }

    /// The wire bytes of this command: CID then payload.
    pub open spec fn spec_bytes(self) -> Seq<u8> {
        seq![self.spec_cid()] + self.spec_payload()
    }

    /// The payload length of this command in bytes.
    pub open spec fn spec_len(self) -> int {
        self.spec_payload().len() as int
    }

    #[allow(clippy::len_without_is_empty)]
    pub fn len(&self) -> (r: usize)
        ensures
            r == self.spec_len(),
    {
        match self {
            DownlinkMacCommand::LinkCheckAns(_) => 2,
            DownlinkMacCommand::LinkADRReq(_) => 4,
            DownlinkMacCommand::DutyCycleReq(_) => 1,
            DownlinkMacCommand::RXParamSetupReq(_) => 4,
            DownlinkMacCommand::DevStatusReq => 0,
            DownlinkMacCommand::NewChannelReq(_) => 5,
            DownlinkMacCommand::RXTimingSetupReq(_) => 1,
            DownlinkMacCommand::TxParamSetupReq(_) => 1,
            DownlinkMacCommand::DIChannelReq(_) => 4,
            DownlinkMacCommand::DeviceTimeAns(_) => 5,
        }
    }
}

/// The fixed payload length of the downlink command tagged `cid`, or `None`
/// for a CID outside the downlink vocabulary.
pub open spec fn spec_downlink_payload_len(cid: u8) -> Option<int> {
    if cid == LINK_CHECK_CID {
        Some(2int)
    } else if cid == LINK_ADR_CID {
        Some(4int)
    } else if cid == DUTY_CYCLE_CID {
        Some(1int)
    } else if cid == RX_PARAM_SETUP_CID {
        Some(4int)
    } else if cid == DEV_STATUS_CID {
        Some(0int)
    } else if cid == NEW_CHANNEL_CID {
        Some(5int)
    } else if cid == RX_TIMING_SETUP_CID {
        Some(1int)
    } else if cid == TX_PARAM_SETUP_CID {
        Some(1int)
    } else if cid == DI_CHANNEL_CID {
        Some(4int)
    } else if cid == DEVICE_TIME_CID {
        Some(5int)
    } else {
        None
    }
}

/// The downlink command with CID `cid` and payload `p`.
pub open spec fn spec_parse_downlink_one(cid: u8, p: Seq<u8>) -> DownlinkMacCommand
    recommends
        spec_downlink_payload_len(cid) == Some(p.len() as int),
{
    if cid == LINK_CHECK_CID {
        DownlinkMacCommand::LinkCheckAns(LinkCheckAns { gw_cnt: p[0], margin: p[1] })
    } else if cid == LINK_ADR_CID {
        DownlinkMacCommand::LinkADRReq(
            LinkADRReq {
                data_rate_tx_power: DataRateTXPower { raw: p[0] },
                ch_mask: [p[1], p[2]],
                redundancy: Redundancy { raw: p[3] },
            },
        )
    } else if cid == DUTY_CYCLE_CID {
        DownlinkMacCommand::DutyCycleReq(DutyCycleReq { duty_cycle_pl: DutyCyclePl { raw: p[0] } })
    } else if cid == RX_PARAM_SETUP_CID {
        DownlinkMacCommand::RXParamSetupReq(
            RXParamSetupReq {
                dl_settings: DlSettings { raw: p[0] },
                frequency: Frequency([p[1], p[2], p[3]]),
            },
        )
    } else if cid == DEV_STATUS_CID {
        DownlinkMacCommand::DevStatusReq
    } else if cid == NEW_CHANNEL_CID {
        DownlinkMacCommand::NewChannelReq(
            NewChannelReq {
                ch_index: p[0],
                frequency: Frequency([p[1], p[2], p[3]]),
                dr_range: DRRange { raw: p[4] },
            },
        )
    } else if cid == RX_TIMING_SETUP_CID {
        DownlinkMacCommand::RXTimingSetupReq(
            RXTimingSetupReq { rx_timings_settings: RxTimingSettings { raw: p[0] } },
        )
    } else if cid == TX_PARAM_SETUP_CID {
        DownlinkMacCommand::TxParamSetupReq(
            TxParamSetupReq { eirp_dwell_time: EirpDwellTime { raw: p[0] } },
        )
    } else if cid == DI_CHANNEL_CID {
        DownlinkMacCommand::DIChannelReq(
            DlChannelReq { ch_index: p[0], frequency: Frequency([p[1], p[2], p[3]]) },
        )
    } else {
        DownlinkMacCommand::DeviceTimeAns(
            DeviceTimeAns { seconds: [p[0], p[1], p[2], p[3]], fractions: p[4] },
        )
    }
}

/// The command sequence a byte span means: commands are read in order until
/// the span is exhausted, a CID outside the vocabulary is met, or the bytes
/// left are shorter than the command they begin.
pub open spec fn spec_decode_downlink(bytes: Seq<u8>) -> Seq<DownlinkMacCommand>
    decreases bytes.len(),
{
    if bytes.len() == 0 {
        Seq::empty()
    } else {
        match spec_downlink_payload_len(bytes[0]) {
            Some(l) => if bytes.len() >= 1 + l {
                seq![spec_parse_downlink_one(bytes[0], bytes.subrange(1, 1 + l))]
                    + spec_decode_downlink(bytes.skip(1 + l))
            } else {
                Seq::empty()
            },
            None => Seq::empty(),
        }
    }
}

/// The wire bytes of a downlink command sequence.
pub open spec fn spec_encode_downlink(cmds: Seq<DownlinkMacCommand>) -> Seq<u8>
    decreases cmds.len(),
{
    if cmds.len() == 0 {
        Seq::empty()
    } else {
        cmds[0].spec_bytes() + spec_encode_downlink(cmds.skip(1))
    }
}

/// A lazy decoder over a byte span holding downlink MAC commands.
pub struct DownlinkMacCommandDecoder {
    buf: Vec<u8>,
    pos: usize,
}

impl DownlinkMacCommandDecoder {
    /// The bytes not yet consumed.
    pub closed spec fn remaining(self) -> Seq<u8> {
        self.buf@.skip(self.pos as int)
    }

    pub closed spec fn wf(self) -> bool {
        self.pos <= self.buf@.len()
    }

    pub fn new(buf: &[u8]) -> (r: Self)
        ensures
            r.wf(),
            r.remaining() == buf@,
    {
        let r = DownlinkMacCommandDecoder { buf: vstd::slice::slice_to_vec(buf), pos: 0 };
        proof {
            assert(r.remaining() =~= buf@);
        }
        r
    }

    /// The bytes not yet consumed: after iteration stops on a CID outside
    /// the vocabulary, a strict caller inspects the residue here.
    pub fn remaining_bytes(&self) -> (r: Vec<u8>)
        requires
            self.wf(),
        ensures
            r@ == self.remaining(),
    {
        let r = vstd::slice::slice_to_vec(
            vstd::slice::slice_subrange(self.buf.as_slice(), self.pos, self.buf.len()),
        );
        proof {
            assert(r@ =~= self.remaining());
        }
        r
    }

    /// Decodes the next command, advancing the cursor exactly past its CID
    /// and payload. Returns `None` once the span is exhausted, a command is
    /// truncated (which clears the cursor), or a CID outside the vocabulary
    /// is met (which leaves the residue in place for inspection).
    pub fn next(&mut self) -> (r: Option<DownlinkMacCommand>)
        requires
            old(self).wf(),
        ensures
            final(self).wf(),
            r is None ==> spec_decode_downlink(final(self).remaining()).len() == 0,
            ({
                let rem = old(self).remaining();
                let cmds = spec_decode_downlink(rem);
                if cmds.len() > 0 {
                    &&& r == Some(cmds[0])
                    &&& (spec_downlink_payload_len(rem[0]) matches Some(l)
                        && final(self).remaining() == rem.skip(1 + l))
                    &&& spec_decode_downlink(final(self).remaining()) == cmds.skip(1)
                    &&& final(self).remaining().len() < rem.len()
                } else {
                    &&& r is None
                    &&& if rem.len() > 0 && spec_downlink_payload_len(rem[0]) is Some {
                        // a truncated trailing command clears the cursor
                        final(self).remaining() == Seq::<u8>::empty()
                    } else {
                        // exhausted, or an unknown CID: the residue stays
                        final(self).remaining() == rem
                    }
                }
            }),
    {
        let ghost rem = self.remaining();
        if self.pos >= self.buf.len() {
            return None;
        }
        let cid = self.buf[self.pos];
        assert(cid == rem[0]);
        let l: usize = if cid == LINK_CHECK_CID {
            2
        } else if cid == LINK_ADR_CID {
            4
        } else if cid == DUTY_CYCLE_CID {
            1
        } else if cid == RX_PARAM_SETUP_CID {
            4
        } else if cid == DEV_STATUS_CID {
            0
        } else if cid == NEW_CHANNEL_CID {
            5
        } else if cid == RX_TIMING_SETUP_CID {
            1
        } else if cid == TX_PARAM_SETUP_CID {
            1
        } else if cid == DI_CHANNEL_CID {
            4
        } else if cid == DEVICE_TIME_CID {
            5
        } else {
            // a CID outside the vocabulary ends decoding; the residue stays
            assert(spec_decode_downlink(rem).len() == 0);
            return None;
        };
        assert(spec_downlink_payload_len(cid) == Some(l as int));
        if self.buf.len() - self.pos < 1 + l {
            // a truncated trailing command: nothing more can be read
            self.pos = self.buf.len();
            assert(spec_decode_downlink(rem).len() == 0);
            proof {
                assert(self.remaining() =~= Seq::<u8>::empty());
                assert(spec_decode_downlink(self.remaining()).len() == 0);
            }
            return None;
        }
        let p = self.pos;
        let ghost payload = rem.subrange(1, 1 + l as int);
        assert(forall|i: int| 0 <= i < l ==> payload[i] == self.buf@[p + 1 + i]);
        let cmd = if cid == LINK_CHECK_CID {
            DownlinkMacCommand::LinkCheckAns(
                LinkCheckAns { gw_cnt: self.buf[p + 1], margin: self.buf[p + 2] },
            )
        } else if cid == LINK_ADR_CID {
            DownlinkMacCommand::LinkADRReq(
                LinkADRReq {
                    data_rate_tx_power: DataRateTXPower { raw: self.buf[p + 1] },
                    ch_mask: [self.buf[p + 2], self.buf[p + 3]],
                    redundancy: Redundancy { raw: self.buf[p + 4] },
                },
            )
        } else if cid == DUTY_CYCLE_CID {
            DownlinkMacCommand::DutyCycleReq(
                DutyCycleReq { duty_cycle_pl: DutyCyclePl { raw: self.buf[p + 1] } },
            )
        } else if cid == RX_PARAM_SETUP_CID {
            DownlinkMacCommand::RXParamSetupReq(
                RXParamSetupReq {
                    dl_settings: DlSettings { raw: self.buf[p + 1] },
                    frequency: Frequency([self.buf[p + 2], self.buf[p + 3], self.buf[p + 4]]),
                },
            )
        } else if cid == DEV_STATUS_CID {
            DownlinkMacCommand::DevStatusReq
        } else if cid == NEW_CHANNEL_CID {
            DownlinkMacCommand::NewChannelReq(
                NewChannelReq {
                    ch_index: self.buf[p + 1],
                    frequency: Frequency([self.buf[p + 2], self.buf[p + 3], self.buf[p + 4]]),
                    dr_range: DRRange { raw: self.buf[p + 5] },
                },
            )
        } else if cid == RX_TIMING_SETUP_CID {
            DownlinkMacCommand::RXTimingSetupReq(
                RXTimingSetupReq { rx_timings_settings: RxTimingSettings { raw: self.buf[p + 1] } },
            )
        } else if cid == TX_PARAM_SETUP_CID {
            DownlinkMacCommand::TxParamSetupReq(
                TxParamSetupReq { eirp_dwell_time: EirpDwellTime { raw: self.buf[p + 1] } },
            )
        } else if cid == DI_CHANNEL_CID {
            DownlinkMacCommand::DIChannelReq(
                DlChannelReq {
                    ch_index: self.buf[p + 1],
                    frequency: Frequency([self.buf[p + 2], self.buf[p + 3], self.buf[p + 4]]),
                },
            )
        } else {
            DownlinkMacCommand::DeviceTimeAns(
                DeviceTimeAns {
                    seconds: [self.buf[p + 1], self.buf[p + 2], self.buf[p + 3], self.buf[p + 4]],
                    fractions: self.buf[p + 5],
                },
            )
        };
        assert(cmd == spec_parse_downlink_one(cid, payload));
        self.pos = p + 1 + l;
        proof {
            assert(self.remaining() =~= rem.skip(1 + l as int));
            assert(spec_decode_downlink(rem) == seq![spec_parse_downlink_one(cid, payload)]
                + spec_decode_downlink(rem.skip(1 + l as int)));
            assert(spec_decode_downlink(rem)[0] == cmd);
            assert(spec_decode_downlink(self.remaining()) =~= spec_decode_downlink(rem).skip(1));
        }
        Some(cmd)
    }

    /// Decodes every command the span holds, in order.
    pub fn decode_all(&mut self) -> (r: Vec<DownlinkMacCommand>)
        requires
            old(self).wf(),
        ensures
            final(self).wf(),
            r@ == spec_decode_downlink(old(self).remaining()),
    {
        let mut out: Vec<DownlinkMacCommand> = Vec::new();
        let ghost all = spec_decode_downlink(self.remaining());
        loop
            invariant
                self.wf(),
                out@ + spec_decode_downlink(self.remaining()) == all,
            ensures
                out@ == all,
            decreases self.remaining().len(),
        {
            let ghost before = self.remaining().len();
            match self.next() {
                Some(cmd) => {
                    out.push(cmd);
                    proof {
                        assert(out@ + spec_decode_downlink(self.remaining()) =~= all);
                        assert(self.remaining().len() < before);
                    }
                },
                None => {
                    proof {
                        assert(out@ =~= all);
                    }
                    break;
                },
            }
        }
        out
    }
}

/// Decoding inverts encoding: a downlink command sequence written to the
/// wire reads back as exactly the same sequence.
pub proof fn lemma_downlink_maccommand_roundtrip(cmds: Seq<DownlinkMacCommand>)
    ensures
        spec_decode_downlink(spec_encode_downlink(cmds)) == cmds,
    decreases cmds.len(),
{
    if cmds.len() == 0 {
        assert(spec_decode_downlink(spec_encode_downlink(cmds)) =~= cmds);
    } else {
        let c = cmds[0];
        let bytes = spec_encode_downlink(cmds);
        let rest = spec_encode_downlink(cmds.skip(1));
        assert(bytes == c.spec_bytes() + rest);
        assert(bytes[0] == c.spec_cid());
        let l = c.spec_len();
        assert(spec_downlink_payload_len(c.spec_cid()) == Some(l));
        assert(bytes.len() >= 1 + l);
        let p = c.spec_payload();
        assert(bytes.subrange(1, 1 + l) =~= p);
        match c {
            DownlinkMacCommand::LinkADRReq(x) => {
                assert(x.ch_mask =~= [p[1], p[2]]);
            },
            DownlinkMacCommand::RXParamSetupReq(x) => {
                assert(x.frequency.0 =~= [p[1], p[2], p[3]]);
            },
            DownlinkMacCommand::NewChannelReq(x) => {
                assert(x.frequency.0 =~= [p[1], p[2], p[3]]);
            },
            DownlinkMacCommand::DIChannelReq(x) => {
                assert(x.frequency.0 =~= [p[1], p[2], p[3]]);
            },
            DownlinkMacCommand::DeviceTimeAns(x) => {
                assert(x.seconds =~= [p[0], p[1], p[2], p[3]]);
            },
            _ => {},
        }
        assert(spec_parse_downlink_one(bytes[0], bytes.subrange(1, 1 + l)) == c);
        assert(bytes.skip(1 + l) =~= rest);
        lemma_downlink_maccommand_roundtrip(cmds.skip(1));
        assert(spec_decode_downlink(bytes) =~= cmds);
    }
}

} // verus!
