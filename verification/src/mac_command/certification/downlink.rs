//! Downlink commands of the certification test-harness vocabulary
//! (TCL to device under test), sharing the CID-tagged codec shape.

use vstd::prelude::*;

use crate::Error;

verus! {

pub const PACKET_VERSION_CID: u8 = 0x00;

pub const DUT_RESET_CID: u8 = 0x01;

pub const DUT_JOIN_CID: u8 = 0x02;

pub const SWITCH_CLASS_CID: u8 = 0x03;

pub const ADR_BIT_CHANGE_CID: u8 = 0x04;

pub const REGIONAL_DUTY_CYCLE_CID: u8 = 0x05;

pub const TX_PERIODICITY_CHANGE_CID: u8 = 0x06;

pub const TX_FRAMES_CTRL_CID: u8 = 0x07;

pub const ECHO_PAYLOAD_CID: u8 = 0x08;

pub const RX_APP_CNT_CID: u8 = 0x09;

pub const RX_APP_CNT_RESET_CID: u8 = 0x0A;

pub const LINK_CHECK_CID: u8 = 0x20;

pub const DEVICE_TIME_CID: u8 = 0x21;

pub const PING_SLOT_INFO_CID: u8 = 0x22;

pub const TX_CW_CID: u8 = 0x7D;

pub const DUT_FPORT_224_DISABLE_CID: u8 = 0x7E;

pub const DUT_VERSION_CID: u8 = 0x7F;

/// The class of operation a SwitchClassReq selects.
#[derive(Clone, Copy, Debug, PartialEq, Eq)]
pub enum SwitchClassReq {
    A,
    B,
    C,
}

/// The frame type all subsequent uplinks of the device shall use.
#[derive(Clone, Copy, Debug, PartialEq, Eq)]
pub enum TxFramesCtrlReqFrameType {
    NoChange,
    Unconfirmed,
    Confirmed,
}

/// Payload of a TxFramesCtrlReq.
#[derive(Clone, Copy, Debug, PartialEq, Eq)]
pub struct TxFramesCtrlReq {
    pub frame_type: TxFramesCtrlReqFrameType,
}

/// A downlink certification command, tagged on the wire by its CID byte.
#[derive(Clone, Debug, PartialEq, Eq)]
pub enum CertificationDownlinkMacCommand {
    /// Used by the TCL to request the package version implemented by the end-device
    PackageVersionReq,
    /// DUT SHALL reset the MCU
    DutResetReq,
    /// DUT SHALL start issuing Join-Request messages
    DutJoinReq,
    /// DUT SHALL change its Class of operation to A, B or C
    SwitchClassReq(SwitchClassReq),
    /// DUT SHALL activate/deactivate ADR
    AdrBitChangeReq(bool),
    /// DUT SHALL activate/deactivate the regional band duty-cycle enforcement
    RegionalDutyCycleCtrlReq(bool),
    /// DUT SHALL change its uplink periodicity to the provided value
    TxPeriodicityChangeReq(u8),
    /// All subsequent DUT uplinks SHALL be of specified type
    TxFramesCtrlReq(TxFramesCtrlReq),
    /// TCL requests the DUT to echo the provided payload where each byte is incremented by 1
    EchoPayloadReq(Vec<u8>),
    /// TCL requests the DUT to provide the current applicative RxAppCnt value
    RxAppCntReq(u16),
    /// DUT SHALL reset the applicative RxAppCnt value to 0
    RxAppCntResetReq,
    /// DUT SHALL send a LinkCheckReq MAC command to the TCL
    LinkCheckReq,
    /// DUT SHALL send a DeviceTimeReq MAC command to the TCL
    DeviceTimeReq,
    /// DUT SHALL send a PingSlotInfoReq MAC command to the TCL
    PingSlotInfoReq(u8),
    /// DUT SHALL set the radio in continuous wave transmission mode
    TxCwReq,
    /// DUT SHALL disable the processing of data received on FPort 224
    DutFPort224DisableReq,
    /// TCL requests the DUT to send its firmware, link-layer and regional versions
    DutVersionsReq,
}

impl CertificationDownlinkMacCommand {
    /// Decodes one certification command from `buf`: the CID byte, then the
    /// command's payload. An empty span or one truncated before a fixed
    /// 1- or 2-byte payload fails with `Size`; an unknown CID or an illegal
    /// variant discriminant fails with `Payload`.
    pub fn decode(buf: &[u8]) -> (r: Result<Self, Error>)
        ensures
            buf@.len() == 0 ==> r == Err::<Self, Error>(Error::Size),
            buf@.len() > 0 ==> {
                let cid = buf@[0];
                &&& cid == PACKET_VERSION_CID ==> r == Ok::<Self, Error>(
                    CertificationDownlinkMacCommand::PackageVersionReq,
                )
                &&& cid == DUT_RESET_CID ==> r == Ok::<Self, Error>(
                    CertificationDownlinkMacCommand::DutResetReq,
                )
                &&& cid == DUT_JOIN_CID ==> r == Ok::<Self, Error>(
                    CertificationDownlinkMacCommand::DutJoinReq,
                )
                &&& cid == SWITCH_CLASS_CID ==> r == (if buf@.len() < 2 {
                    Err::<Self, Error>(Error::Payload)
                } else if buf@[1] == 0 {
                    Ok(CertificationDownlinkMacCommand::SwitchClassReq(SwitchClassReq::A))
                } else if buf@[1] == 1 {
                    Ok(CertificationDownlinkMacCommand::SwitchClassReq(SwitchClassReq::B))
                } else if buf@[1] == 2 {
                    Ok(CertificationDownlinkMacCommand::SwitchClassReq(SwitchClassReq::C))
                } else {
                    Err(Error::Payload)
                })
                &&& cid == ADR_BIT_CHANGE_CID ==> r == (if buf@.len() < 2 {
                    Err::<Self, Error>(Error::Size)
                } else {
                    Ok(CertificationDownlinkMacCommand::AdrBitChangeReq(buf@[1] == 1))
                })
                &&& cid == REGIONAL_DUTY_CYCLE_CID ==> r == (if buf@.len() < 2 {
                    Err::<Self, Error>(Error::Size)
                } else {
                    Ok(CertificationDownlinkMacCommand::RegionalDutyCycleCtrlReq(buf@[1] == 1))
                })
                &&& cid == TX_PERIODICITY_CHANGE_CID ==> r == (if buf@.len() < 2 {
                    Err::<Self, Error>(Error::Size)
                } else {
                    Ok(CertificationDownlinkMacCommand::TxPeriodicityChangeReq(buf@[1]))
                })
                &&& cid == TX_FRAMES_CTRL_CID ==> r == (if buf@.len() < 2 {
                    Err::<Self, Error>(Error::Payload)
                } else if buf@[1] == 0 {
                    Ok(
                        CertificationDownlinkMacCommand::TxFramesCtrlReq(
                            TxFramesCtrlReq { frame_type: TxFramesCtrlReqFrameType::NoChange },
                        ),
                    )
                } else if buf@[1] == 1 {
                    Ok(
                        CertificationDownlinkMacCommand::TxFramesCtrlReq(
                            TxFramesCtrlReq { frame_type: TxFramesCtrlReqFrameType::Unconfirmed },
                        ),
                    )
                } else if buf@[1] == 2 {
                    Ok(
                        CertificationDownlinkMacCommand::TxFramesCtrlReq(
                            TxFramesCtrlReq { frame_type: TxFramesCtrlReqFrameType::Confirmed },
                        ),
                    )
                } else {
                    Err(Error::Payload)
                })
                &&& cid == ECHO_PAYLOAD_CID ==> (r matches Ok(c) && c matches
                    CertificationDownlinkMacCommand::EchoPayloadReq(v) && v@ == buf@.skip(1))
                &&& cid == RX_APP_CNT_CID ==> r == (if buf@.len() < 3 {
                    Err::<Self, Error>(Error::Payload)
                } else {
                    Ok(
                        CertificationDownlinkMacCommand::RxAppCntReq(
                            (buf@[1] + buf@[2] * 0x100) as u16,
                        ),
                    )
                })
                &&& cid == RX_APP_CNT_RESET_CID ==> r == Ok::<Self, Error>(
                    CertificationDownlinkMacCommand::RxAppCntResetReq,
                )
                &&& cid == LINK_CHECK_CID ==> r == Ok::<Self, Error>(
                    CertificationDownlinkMacCommand::LinkCheckReq,
                )
                &&& cid == DEVICE_TIME_CID ==> r == Ok::<Self, Error>(
                    CertificationDownlinkMacCommand::DeviceTimeReq,
                )
                &&& cid == PING_SLOT_INFO_CID ==> r == (if buf@.len() < 2 {
                    Err::<Self, Error>(Error::Size)
                } else {
                    Ok(CertificationDownlinkMacCommand::PingSlotInfoReq(buf@[1]))
                })
                &&& cid == TX_CW_CID ==> r == Ok::<Self, Error>(
                    CertificationDownlinkMacCommand::TxCwReq,
                )
                &&& cid == DUT_FPORT_224_DISABLE_CID ==> r == Ok::<Self, Error>(
                    CertificationDownlinkMacCommand::DutFPort224DisableReq,
                )
                &&& cid == DUT_VERSION_CID ==> r == Ok::<Self, Error>(
                    CertificationDownlinkMacCommand::DutVersionsReq,
                )
                &&& !(cid == PACKET_VERSION_CID || cid == DUT_RESET_CID || cid == DUT_JOIN_CID
                    || cid == SWITCH_CLASS_CID || cid == ADR_BIT_CHANGE_CID || cid
                    == REGIONAL_DUTY_CYCLE_CID || cid == TX_PERIODICITY_CHANGE_CID || cid
                    == TX_FRAMES_CTRL_CID || cid == ECHO_PAYLOAD_CID || cid == RX_APP_CNT_CID || cid
                    == RX_APP_CNT_RESET_CID || cid == LINK_CHECK_CID || cid == DEVICE_TIME_CID || cid
                    == PING_SLOT_INFO_CID || cid == TX_CW_CID || cid == DUT_FPORT_224_DISABLE_CID
                    || cid == DUT_VERSION_CID) ==> r == Err::<Self, Error>(Error::Payload)
            },
    {
        if buf.len() == 0 {
            return Err(Error::Size);
        }
        let cid = buf[0];
        if cid == PACKET_VERSION_CID {
            Ok(CertificationDownlinkMacCommand::PackageVersionReq)
        } else if cid == DUT_RESET_CID {
            Ok(CertificationDownlinkMacCommand::DutResetReq)
        } else if cid == DUT_JOIN_CID {
            Ok(CertificationDownlinkMacCommand::DutJoinReq)
        } else if cid == SWITCH_CLASS_CID {
            if buf.len() < 2 {
                Err(Error::Payload)
            } else if buf[1] == 0 {
                Ok(CertificationDownlinkMacCommand::SwitchClassReq(SwitchClassReq::A))
            } else if buf[1] == 1 {
                Ok(CertificationDownlinkMacCommand::SwitchClassReq(SwitchClassReq::B))
            } else if buf[1] == 2 {
                Ok(CertificationDownlinkMacCommand::SwitchClassReq(SwitchClassReq::C))
            } else {
                Err(Error::Payload)
            }
        } else if cid == ADR_BIT_CHANGE_CID {
            if buf.len() < 2 {
                Err(Error::Size)
            } else {
                Ok(CertificationDownlinkMacCommand::AdrBitChangeReq(buf[1] == 1))
            }
        } else if cid == REGIONAL_DUTY_CYCLE_CID {
            if buf.len() < 2 {
                Err(Error::Size)
            } else {
                Ok(CertificationDownlinkMacCommand::RegionalDutyCycleCtrlReq(buf[1] == 1))
            }
        } else if cid == TX_PERIODICITY_CHANGE_CID {
            if buf.len() < 2 {
                Err(Error::Size)
            } else {
                Ok(CertificationDownlinkMacCommand::TxPeriodicityChangeReq(buf[1]))
            }
        } else if cid == TX_FRAMES_CTRL_CID {
            if buf.len() < 2 {
                Err(Error::Payload)
            } else if buf[1] == 0 {
                Ok(
                    CertificationDownlinkMacCommand::TxFramesCtrlReq(
                        TxFramesCtrlReq { frame_type: TxFramesCtrlReqFrameType::NoChange },
                    ),
                )
            } else if buf[1] == 1 {
                Ok(
                    CertificationDownlinkMacCommand::TxFramesCtrlReq(
                        TxFramesCtrlReq { frame_type: TxFramesCtrlReqFrameType::Unconfirmed },
                    ),
                )
            } else if buf[1] == 2 {
                Ok(
                    CertificationDownlinkMacCommand::TxFramesCtrlReq(
                        TxFramesCtrlReq { frame_type: TxFramesCtrlReqFrameType::Confirmed },
                    ),
                )
            } else {
                Err(Error::Payload)
            }
        } else if cid == ECHO_PAYLOAD_CID {
            let payload = vstd::slice::slice_to_vec(
                vstd::slice::slice_subrange(buf, 1, buf.len()),
            );
            proof {
                assert(payload@ =~= buf@.skip(1));
            }
            Ok(CertificationDownlinkMacCommand::EchoPayloadReq(payload))
        } else if cid == RX_APP_CNT_CID {
            if buf.len() < 3 {
                Err(Error::Payload)
            } else {
                Ok(
                    CertificationDownlinkMacCommand::RxAppCntReq(
                        (buf[1] as u16) + (buf[2] as u16) * 0x100,
                    ),
                )
            }
        } else if cid == RX_APP_CNT_RESET_CID {
            Ok(CertificationDownlinkMacCommand::RxAppCntResetReq)
        } else if cid == LINK_CHECK_CID {
            Ok(CertificationDownlinkMacCommand::LinkCheckReq)
        } else if cid == DEVICE_TIME_CID {
            Ok(CertificationDownlinkMacCommand::DeviceTimeReq)
        } else if cid == PING_SLOT_INFO_CID {
            if buf.len() < 2 {
                Err(Error::Size)
            } else {
                Ok(CertificationDownlinkMacCommand::PingSlotInfoReq(buf[1]))
            }
        } else if cid == TX_CW_CID {
            Ok(CertificationDownlinkMacCommand::TxCwReq)
        } else if cid == DUT_FPORT_224_DISABLE_CID {
            Ok(CertificationDownlinkMacCommand::DutFPort224DisableReq)
        } else if cid == DUT_VERSION_CID {
            Ok(CertificationDownlinkMacCommand::DutVersionsReq)
        } else {
            Err(Error::Payload)
        }
    }
}

} // verus!
