use lorawan_encoding::mac_command::uplink::{
    encode_maccommands, DIChannelAns, DIChannelAnsStatus, DevStatusAns, DevStatusAnsRadioStatus,
    LinkADRAns, LinkAdrAnsStatus, NewChannelAns, NewChannelAnsStatus, RXParamSetupAns,
    RXParamSetupAnsStatus, UplinkMacCommmand,
};
use lorawan_encoding::Error;

#[test]
fn encode_uplink_cmds() {
    let cmds = vec![
        UplinkMacCommmand::LinkCheckReq,
        UplinkMacCommmand::LinkADRAns(LinkADRAns {
            status: LinkAdrAnsStatus::new(),
        }),
        UplinkMacCommmand::DutyCycleAns,
        UplinkMacCommmand::RXParamSetupAns(RXParamSetupAns {
            status: RXParamSetupAnsStatus::new(),
        }),
        UplinkMacCommmand::DevStatusAns(DevStatusAns {
            radio_status: DevStatusAnsRadioStatus::new(),
            battery: 112,
        }),
        UplinkMacCommmand::NewChannelAns(NewChannelAns {
            status: NewChannelAnsStatus::new(),
        }),
        UplinkMacCommmand::RXTimingSetupAns,
        UplinkMacCommmand::TxParamSetupAns,
        UplinkMacCommmand::DlChannelAns(DIChannelAns {
            status: DIChannelAnsStatus::new(),
        }),
        UplinkMacCommmand::DeviceTimeReq,
    ];
    let mut buf = vec![0u8; 255];
    let n = encode_maccommands(&cmds, &mut buf).unwrap();
    assert_eq!(
        &buf[..n],
        &[
            0x02, 0x03, 0x00, 0x04, 0x05, 0x00, 0x06, 0, 112, 0x07, 0x00, 0x08, 0x09, 0x0A, 0x00,
            0x0D
        ]
    )
}

#[test]
fn encode_uplink_dev_status_ans() {
    let cmds = vec![
        UplinkMacCommmand::DevStatusAns(DevStatusAns {
            radio_status: DevStatusAnsRadioStatus::new().with_snr(-15),
            battery: 112,
        }),
        UplinkMacCommmand::DevStatusAns(DevStatusAns {
            radio_status: DevStatusAnsRadioStatus::new().with_snr(0),
            battery: 225,
        }),
        UplinkMacCommmand::DevStatusAns(DevStatusAns {
            radio_status: DevStatusAnsRadioStatus::new().with_snr(15),
            battery: 0,
        }),
    ];
    let mut buf = vec![0u8; 255];
    let n = encode_maccommands(&cmds, &mut buf).unwrap();
    assert_eq!(&buf[..n], &[0x06, 49, 112, 0x06, 0, 225, 0x06, 15, 0])
}

#[test]
fn encode_uplink_rx_param_setup_ans() {
    let cmds = vec![
        UplinkMacCommmand::RXParamSetupAns(RXParamSetupAns {
            status: RXParamSetupAnsStatus::new()
                .with_channel_ack(true)
                .with_rx2_data_rate_ack(false)
                .with_rx1_data_rate_offset_ack(false),
        }),
        UplinkMacCommmand::RXParamSetupAns(RXParamSetupAns {
            status: RXParamSetupAnsStatus::new()
                .with_channel_ack(false)
                .with_rx2_data_rate_ack(true)
                .with_rx1_data_rate_offset_ack(false),
        }),
        UplinkMacCommmand::RXParamSetupAns(RXParamSetupAns {
            status: RXParamSetupAnsStatus::new()
                .with_channel_ack(false)
                .with_rx2_data_rate_ack(false)
                .with_rx1_data_rate_offset_ack(true),
        }),
    ];
    let mut buf = vec![0u8; 255];
    let n = encode_maccommands(&cmds, &mut buf).unwrap();
    assert_eq!(&buf[..n], &[0x05, 0x01, 0x05, 0x02, 0x05, 0x04])
}

#[test]
fn encode_uplink_new_channel_ans() {
    let cmds = vec![
        UplinkMacCommmand::NewChannelAns(NewChannelAns {
            status: NewChannelAnsStatus::new()
                .with_channel_freq_ok(true)
                .with_data_rate_range_ok(false),
        }),
        UplinkMacCommmand::NewChannelAns(NewChannelAns {
            status: NewChannelAnsStatus::new()
                .with_channel_freq_ok(false)
                .with_data_rate_range_ok(true),
        }),
    ];
    let mut buf = vec![0u8; 255];
    let n = encode_maccommands(&cmds, &mut buf).unwrap();
    assert_eq!(&buf[..n], &[0x07, 0x01, 0x07, 0x02])
}

#[test]
fn encode_uplink_dl_channel_ans() {
    let cmds = vec![
        UplinkMacCommmand::DlChannelAns(DIChannelAns {
            status: DIChannelAnsStatus::new()
                .with_channel_frequency_ok(true)
                .with_uplink_frequency_exists(false),
        }),
        UplinkMacCommmand::DlChannelAns(DIChannelAns {
            status: DIChannelAnsStatus::new()
                .with_channel_frequency_ok(false)
                .with_uplink_frequency_exists(true),
        }),
    ];
    let mut buf = vec![0u8; 255];
    let n = encode_maccommands(&cmds, &mut buf).unwrap();
    assert_eq!(&buf[..n], &[0x0A, 0x01, 0x0A, 0x02])
}

#[test]
fn encode_uplink_link_check_and_adr_ans() {
    // LinkCheckReq has no payload; the LinkADRAns status sets bit 0
    // (ch_mask_ack) and bit 2 (power_ack)
    let cmds = vec![
        UplinkMacCommmand::LinkCheckReq,
        UplinkMacCommmand::LinkADRAns(LinkADRAns {
            status: LinkAdrAnsStatus::new()
                .with_channel_mask_ack(true)
                .with_power_ack(true),
        }),
    ];
    let mut buf = vec![0u8; 8];
    let n = encode_maccommands(&cmds, &mut buf).unwrap();
    assert_eq!(&buf[..n], &[0x02, 0x03, 0x05]);
}

#[test]
fn encode_uplink_buffer_too_small() {
    let cmds = vec![
        UplinkMacCommmand::DevStatusAns(DevStatusAns {
            radio_status: DevStatusAnsRadioStatus::new(),
            battery: 1,
        }),
    ];
    let mut buf = vec![0u8; 2];
    assert_eq!(encode_maccommands(&cmds, &mut buf), Err(Error::Size));
}

#[test]
fn snr_six_bit_two_complement_roundtrip() {
    assert_eq!(DevStatusAnsRadioStatus::new().with_snr(-15).raw, 49);
    assert_eq!(DevStatusAnsRadioStatus::new().with_snr(-15).snr(), -15);
    assert_eq!(DevStatusAnsRadioStatus::new().with_snr(-32).snr(), -32);
    assert_eq!(DevStatusAnsRadioStatus::new().with_snr(31).snr(), 31);
    assert_eq!(DevStatusAnsRadioStatus::new().with_snr(0).raw, 0);
}
