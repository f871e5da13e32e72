use lorawan_encoding::mac_command::downlink::{
    DRRange, DataRateTXPower, DlSettings, DownlinkMacCommand, DownlinkMacCommandDecoder,
    DutyCyclePl, DutyCycleReq, LinkADRReq, LinkCheckAns, Redundancy,
};

#[test]
fn decode_downlink_cmds() {
    let buf = [0x02, 0x03, 0x04, 0x03, 0x21, 0x02, 0x03, 0x45];
    let mut decoder = DownlinkMacCommandDecoder::new(&buf);
    let cmds = decoder.decode_all();
    assert_eq!(2, cmds.len());
    assert!(matches!(
        cmds.get(0),
        Some(DownlinkMacCommand::LinkCheckAns(LinkCheckAns {
            gw_cnt: 3,
            margin: 4
        }))
    ));
    if let Some(DownlinkMacCommand::LinkADRReq(LinkADRReq {
        data_rate_tx_power,
        ch_mask,
        redundancy,
    })) = cmds.get(1)
    {
        assert_eq!(
            data_rate_tx_power,
            &DataRateTXPower::new().with_tx_power(1).with_data_rate(2)
        );
        assert_eq!(ch_mask, &[0x02, 0x03]);
        assert_eq!(
            redundancy,
            &Redundancy::new().with_ch_mask_cntl(4).with_nb_trans(5)
        );
    } else {
        assert!(false, "Wrong command type: {:?}", cmds.get(1))
    }
    assert!(matches!(cmds.get(2), None));
}

#[test]
fn decode_duty_cycle_req() {
    let buf = [0x04, 0x02];
    let mut decoder = DownlinkMacCommandDecoder::new(&buf);
    let cmds = decoder.decode_all();
    assert_eq!(1, cmds.len());
    let Some(DownlinkMacCommand::DutyCycleReq(cmd)) = cmds.get(0) else {
        panic!("decode error");
    };
    assert_eq!(
        cmd,
        &DutyCycleReq {
            duty_cycle_pl: DutyCyclePl::new().with_max_duty_cycle(2)
        }
    )
}

#[test]
fn decode_rx_param_setup_req() {
    let buf = [0x05, 0x5C, 0x84, 0x76, 0x2A];
    let mut decoder = DownlinkMacCommandDecoder::new(&buf);
    let cmds = decoder.decode_all();
    assert_eq!(1, cmds.len());
    let Some(DownlinkMacCommand::RXParamSetupReq(cmd)) = cmds.get(0) else {
        panic!("decode error");
    };
    assert_eq!(cmd.frequency.hz(), 868100200);
    assert_eq!(
        cmd.dl_settings,
        DlSettings::new()
            .with_rx1_dr_offset(5)
            .with_rx2_data_rate(12)
    )
}

#[test]
fn decode_dev_status_req() {
    // the downlink device-status request carries no payload bytes, so the
    // two bytes after it are residue that begins with an unknown CID
    let buf = [0x06, 200, 5];
    let mut decoder = DownlinkMacCommandDecoder::new(&buf);
    let cmds = decoder.decode_all();
    assert_eq!(1, cmds.len());
    assert!(matches!(cmds.get(0), Some(DownlinkMacCommand::DevStatusReq)));
    assert_eq!(decoder.remaining_bytes(), vec![200, 5]);
}

#[test]
fn decode_new_channel_req() {
    let buf = [0x07, 0x01, 0x84, 0x76, 0x2A, 0xA1];
    let mut decoder = DownlinkMacCommandDecoder::new(&buf);
    let cmds = decoder.decode_all();
    assert_eq!(1, cmds.len());
    let Some(DownlinkMacCommand::NewChannelReq(cmd)) = cmds.get(0) else {
        panic!("decode error");
    };
    assert_eq!(cmd.ch_index, 1);
    assert_eq!(cmd.frequency.hz(), 868100200);
    assert_eq!(
        cmd.dr_range,
        DRRange::new().with_max_dr(0x0A).with_min_dr(0x01)
    );
}

#[test]
fn decode_rx_timing_setup_req() {
    let buf = [0x08, 0x03];
    let mut decoder = DownlinkMacCommandDecoder::new(&buf);
    let cmds = decoder.decode_all();
    assert_eq!(1, cmds.len());
    let Some(DownlinkMacCommand::RXTimingSetupReq(cmd)) = cmds.get(0) else {
        panic!("decode error");
    };
    assert_eq!(cmd.rx_timings_settings.del(), 3);
}

#[test]
fn decode_tx_param_setup_req() {
    let buf = [0x09, 0x1C];
    let mut decoder = DownlinkMacCommandDecoder::new(&buf);
    let cmds = decoder.decode_all();
    assert_eq!(1, cmds.len());
    let Some(DownlinkMacCommand::TxParamSetupReq(cmd)) = cmds.get(0) else {
        panic!("decode error");
    };
    assert_eq!(cmd.eirp_dwell_time.max_eirp(), 12);
    assert_eq!(cmd.eirp_dwell_time.uplink_dwell_time(), true);
    assert_eq!(cmd.eirp_dwell_time.downlink_dwell_time(), false);
}

#[test]
fn decode_dl_channel_req() {
    let buf = [0x0A, 0x08, 0x84, 0x76, 0x2A];
    let mut decoder = DownlinkMacCommandDecoder::new(&buf);
    let cmds = decoder.decode_all();
    assert_eq!(1, cmds.len());
    let Some(DownlinkMacCommand::DIChannelReq(cmd)) = cmds.get(0) else {
        panic!("decode error");
    };
    assert_eq!(cmd.ch_index, 8);
    assert_eq!(cmd.frequency.hz(), 868100200);
}

#[test]
fn decode_device_time_ans() {
    let buf = [0x0D, 0x1, 0x2, 0x3, 0x4, 0x5];
    let mut decoder = DownlinkMacCommandDecoder::new(&buf);
    let cmds = decoder.decode_all();
    assert_eq!(1, cmds.len());
    let Some(DownlinkMacCommand::DeviceTimeAns(cmd)) = cmds.get(0) else {
        panic!("decode error");
    };
    assert_eq!(cmd.gps_epoch_nano_seconds(), 16909060019531250);
}

#[test]
fn decode_unknown_cid_stops() {
    // an unknown CID ends decoding; commands before it are kept and the
    // residue stays inspectable from the unknown byte on
    let buf = [0x04, 0x07, 0xFF, 0x05, 0x5C, 0x84, 0x76, 0x2A];
    let mut decoder = DownlinkMacCommandDecoder::new(&buf);
    let cmds = decoder.decode_all();
    assert_eq!(1, cmds.len());
    assert!(matches!(cmds.get(0), Some(DownlinkMacCommand::DutyCycleReq(_))));
    assert_eq!(
        decoder.remaining_bytes(),
        vec![0xFF, 0x05, 0x5C, 0x84, 0x76, 0x2A]
    );
}

#[test]
fn decode_truncated_command_stops() {
    // five payload bytes announced, three present: decoding stops and the
    // cursor is cleared
    let buf = [0x07, 0x01, 0x84, 0x76];
    let mut decoder = DownlinkMacCommandDecoder::new(&buf);
    let cmds = decoder.decode_all();
    assert_eq!(0, cmds.len());
    assert!(decoder.remaining_bytes().is_empty());
}

#[test]
fn decode_empty_span_is_empty_sequence() {
    let buf: [u8; 0] = [];
    let mut decoder = DownlinkMacCommandDecoder::new(&buf);
    assert!(decoder.next().is_none());
}
