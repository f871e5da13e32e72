use lorawan_encoding::crypto::soft::SoftCrypto;
use lorawan_encoding::mac_command::downlink::DownlinkMacCommand;
use lorawan_encoding::mac_command::uplink::{LinkADRAns, LinkAdrAnsStatus, UplinkMacCommmand};
use lorawan_encoding::phy_payload::mac_payload::downlink::Downlink;
use lorawan_encoding::phy_payload::mac_payload::uplink::Uplink;
use lorawan_encoding::phy_payload::mac_payload::{FHDR, FRMPayload};
use lorawan_encoding::types::{AppSKey, DevAddr, NwkSKey};
use lorawan_encoding::Error;

fn get_crypto() -> SoftCrypto {
    SoftCrypto::new(NwkSKey::new([1; 16]), AppSKey::new([0; 16]))
}

fn get_downlink_crypto() -> SoftCrypto {
    SoftCrypto::new(NwkSKey::new([2; 16]), AppSKey::new([1; 16]))
}

#[test]
fn uplink_encode_uplink() {
    let payload: [u8; 2] = [0x08, 0x09];
    let fhdr = FHDR::new(DevAddr::new([0, 1, 2, 3]), true, false, false, 0x0506, &[]).unwrap();
    let mut uplink = Uplink::new(true, fhdr);
    uplink.set_frm_payload(Some(FRMPayload::new_from_slice(7, &payload)));
    let bytes = uplink.build(0, &mut get_crypto()).unwrap();
    assert_eq!(
        bytes,
        vec![128, 0, 1, 2, 3, 128, 6, 5, 7, 255, 123, 34, 224, 206, 195]
    )
}

#[test]
fn uplink_encode_empty_uplink() {
    let fhdr = FHDR::new(DevAddr::new([0, 1, 2, 3]), true, false, false, 0x0506, &[]).unwrap();
    let uplink = Uplink::new(true, fhdr);
    let bytes = uplink.build(0, &mut get_crypto()).unwrap();
    assert_eq!(bytes, vec![128, 0, 1, 2, 3, 128, 6, 5, 75, 31, 216, 35])
}

#[test]
fn encode_uplink_with_fopts() {
    let cmds = vec![
        UplinkMacCommmand::LinkCheckReq,
        UplinkMacCommmand::LinkADRAns(LinkADRAns {
            status: LinkAdrAnsStatus::new()
                .with_power_ack(true)
                .with_channel_mask_ack(true),
        }),
    ];
    let mut f_opts_buf = vec![0u8; 15];
    let n =
        lorawan_encoding::mac_command::uplink::encode_maccommands(&cmds, &mut f_opts_buf).unwrap();
    let fhdr = FHDR::new(
        DevAddr::new([4, 3, 2, 1]),
        false,
        false,
        false,
        0,
        &f_opts_buf[..n],
    )
    .unwrap();
    let uplink = Uplink::new(false, fhdr);
    assert_eq!(
        uplink.build(0, &mut get_crypto()).unwrap(),
        vec![
            0x40, 0x04, 0x03, 0x02, 0x01, 0x03, 0x00, 0x00, 0x02, 0x03, 0x05, 0xd7, 0xfa, 0x0c,
            0x6c
        ]
    );
}

#[test]
fn encrypt_uplink() {
    let cmds = vec![
        UplinkMacCommmand::LinkCheckReq,
        UplinkMacCommmand::LinkADRAns(LinkADRAns {
            status: LinkAdrAnsStatus::new()
                .with_power_ack(true)
                .with_channel_mask_ack(true),
        }),
    ];
    let fhdr = FHDR::new(DevAddr::new([4, 3, 2, 1]), false, false, false, 0, &[]).unwrap();
    let mut uplink = Uplink::new(false, fhdr);
    uplink.set_frm_payload(Some(FRMPayload::new_from_maccommands(&cmds)));
    let bytes = uplink.build(0, &mut get_crypto()).unwrap();
    assert_eq!(
        bytes,
        vec![
            0x40, 0x04, 0x03, 0x02, 0x01, 0x00, 0x00, 0x00, 0x00, 0x69, 0x36, 0x9e, 0xee, 0x6a,
            0xa5, 0x08
        ]
    )
}

#[test]
fn decode_downlink() {
    let packet = [
        0xa0, 0x04, 0x03, 0x02, 0x01, 0x80, 0xff, 0x2a, 0x2a, 0x0a, 0xf1, 0xa3, 0x6a, 0x05, 0xd0,
        0x12, 0x5f, 0x88, 0x5d, 0x88, 0x1d, 0x49, 0xe1,
    ];
    let mut crypto = get_downlink_crypto();
    let downlink = Downlink::new_from_encrypted(&packet, 0x12AFF, &mut crypto).unwrap();
    assert!(downlink.confirmed());
    assert_eq!(downlink.fhdr.dev_addr.bytes, [4, 3, 2, 1]);
    assert_eq!(downlink.fhdr.f_cnt, 0x2AFF);
    let f_ctrl = downlink.fhdr.f_ctrl;
    assert_eq!(f_ctrl.f_opts_len(), 0);
    assert_eq!(f_ctrl.adr(), true);
    assert_eq!(f_ctrl.ack(), false);
    assert_eq!(f_ctrl.f_pending(), false);
    let payload = downlink.frm_payload().as_ref().unwrap();
    assert_eq!(payload.data.len(), 10);
    assert_eq!(&payload.data[..], b"hello lora");
}

#[test]
fn decode_uplink_frame() {
    // an 18-byte uplink whose 5-byte payload decrypts to "hello"
    let packet = [
        0x40, 0x04, 0x03, 0x02, 0x01, 0x80, 0x01, 0x00, 0x01, 0xA6, 0x94, 0x64, 0x26, 0x15, 0xD6,
        0xC3, 0xB5, 0x82,
    ];
    let mut crypto = get_downlink_crypto();
    let uplink = Uplink::new_from_encrypted(&packet, 1, &mut crypto).unwrap();
    assert!(!uplink.confirmed());
    assert_eq!(uplink.fhdr.dev_addr.bytes, [4, 3, 2, 1]);
    assert_eq!(uplink.fhdr.f_cnt, 1);
    assert_eq!(uplink.fhdr.f_ctrl.adr(), true);
    assert_eq!(uplink.fhdr.f_ctrl.ack(), false);
    assert_eq!(uplink.fhdr.f_ctrl.f_pending(), false);
    assert_eq!(uplink.fhdr.f_ctrl.f_opts_len(), 0);
    assert_eq!(uplink.mic().bytes, [0xD6, 0xC3, 0xB5, 0x82]);
    let payload = uplink.frm_payload().as_ref().unwrap();
    assert_eq!(payload.f_port, 1);
    assert_eq!(&payload.data[..], b"hello");
}

#[test]
fn encode_then_decode_roundtrip() {
    // the frame header byte 0xA0 encodes adr and ack with f_opts_len 0
    let fhdr = FHDR::new(DevAddr::new([0, 1, 2, 3]), true, true, false, 5, &[]).unwrap();
    let mut uplink = Uplink::new(true, fhdr);
    uplink.set_frm_payload(Some(FRMPayload::new_from_slice(4, &[0x01, 0x02])));
    let bytes = uplink.build(0, &mut get_crypto()).unwrap();
    assert_eq!(bytes.len(), 15);
    assert_eq!(&bytes[..9], &[0x80, 0x00, 0x01, 0x02, 0x03, 0xA0, 0x05, 0x00, 0x04]);
    let decoded = Uplink::new_from_encrypted(&bytes, 0, &mut get_crypto()).unwrap();
    assert!(decoded.confirmed());
    assert_eq!(decoded.fhdr.dev_addr.bytes, [0, 1, 2, 3]);
    assert_eq!(decoded.fhdr.f_cnt, 5);
    assert_eq!(decoded.fhdr.f_ctrl.raw, 0xA0);
    let payload = decoded.frm_payload().as_ref().unwrap();
    assert_eq!(payload.f_port, 4);
    assert_eq!(&payload.data[..], &[0x01, 0x02]);
}

#[test]
fn corrupt_body_byte_fails_with_mic() {
    let mut packet = [
        0xa0, 0x04, 0x03, 0x02, 0x01, 0x80, 0xff, 0x2a, 0x2a, 0x0a, 0xf1, 0xa3, 0x6a, 0x05, 0xd0,
        0x12, 0x5f, 0x88, 0x5d, 0x88, 0x1d, 0x49, 0xe1,
    ];
    packet[10] ^= 0x01;
    let mut crypto = get_downlink_crypto();
    assert_eq!(
        Downlink::new_from_encrypted(&packet, 0x12AFF, &mut crypto).map(|_| ()),
        Err(Error::MIC)
    );
}

#[test]
fn corrupt_mic_byte_fails_with_mic() {
    let base = [
        0xa0, 0x04, 0x03, 0x02, 0x01, 0x80, 0xff, 0x2a, 0x2a, 0x0a, 0xf1, 0xa3, 0x6a, 0x05, 0xd0,
        0x12, 0x5f, 0x88, 0x5d, 0x88, 0x1d, 0x49, 0xe1,
    ];
    for i in 19..23 {
        let mut packet = base;
        packet[i] ^= 0x80;
        let mut crypto = get_downlink_crypto();
        assert_eq!(
            Downlink::new_from_encrypted(&packet, 0x12AFF, &mut crypto).map(|_| ()),
            Err(Error::MIC)
        );
    }
}

#[test]
fn short_span_fails_with_size() {
    let mut crypto = get_downlink_crypto();
    assert_eq!(
        Downlink::new_from_encrypted(&[], 0, &mut crypto).map(|_| ()),
        Err(Error::Size)
    );
    let eleven = [0xa0, 0x04, 0x03, 0x02, 0x01, 0x80, 0xff, 0x2a, 0x88, 0x1d, 0x49];
    assert_eq!(
        Downlink::new_from_encrypted(&eleven, 0, &mut crypto).map(|_| ()),
        Err(Error::Size)
    );
}

#[test]
fn wrong_direction_fails_with_payload() {
    // an uplink MAC header is not accepted by the downlink decoder
    let packet = [
        0x40, 0x04, 0x03, 0x02, 0x01, 0x80, 0x01, 0x00, 0x01, 0xA6, 0x94, 0x64, 0x26, 0x15, 0xD6,
        0xC3, 0xB5, 0x82,
    ];
    let mut crypto = get_downlink_crypto();
    assert_eq!(
        Downlink::new_from_encrypted(&packet, 1, &mut crypto).map(|_| ()),
        Err(Error::Payload)
    );
}

#[test]
fn fopts_and_port_zero_clash_fails_encode() {
    let fhdr = FHDR::new(DevAddr::new([0, 1, 2, 3]), false, false, false, 0, &[0x02]).unwrap();
    let mut uplink = Uplink::new(false, fhdr);
    uplink.set_frm_payload(Some(FRMPayload::new_from_slice(0, &[0x02])));
    assert_eq!(
        uplink.build(0, &mut get_crypto()).map(|_| ()),
        Err(Error::Payload)
    );
}

#[test]
fn oversized_payload_fails_encode() {
    let fhdr = FHDR::new(DevAddr::new([0, 1, 2, 3]), false, false, false, 0, &[]).unwrap();
    let mut uplink = Uplink::new(false, fhdr);
    uplink.set_frm_payload(Some(FRMPayload::new_from_slice(1, &[0u8; 250])));
    assert_eq!(
        uplink.build(0, &mut get_crypto()).map(|_| ()),
        Err(Error::Size)
    );
}

#[test]
fn oversized_fopts_fails_fhdr() {
    assert_eq!(
        FHDR::new(DevAddr::new([0, 1, 2, 3]), false, false, false, 0, &[0u8; 16]).map(|_| ()),
        Err(Error::Size)
    );
}

#[test]
fn mac_commands_from_fopts() {
    let fhdr = FHDR::new(DevAddr::new([1, 2, 3, 4]), false, false, false, 0, &[0x04, 0x02])
        .unwrap();
    let dl = Downlink::new(false, fhdr);
    let mut decoder = dl.mac_commands().unwrap();
    let cmds = decoder.decode_all();
    assert_eq!(cmds.len(), 1);
    assert!(matches!(cmds.get(0), Some(DownlinkMacCommand::DutyCycleReq(_))));
}

#[test]
fn mac_commands_from_port_zero_payload() {
    let fhdr = FHDR::new(DevAddr::new([1, 2, 3, 4]), false, false, false, 0, &[]).unwrap();
    let mut dl = Downlink::new(false, fhdr);
    dl.set_frm_payload(Some(FRMPayload::new_from_slice(0, &[0x08, 0x03])));
    let mut decoder = dl.mac_commands().unwrap();
    let cmds = decoder.decode_all();
    assert_eq!(cmds.len(), 1);
    assert!(matches!(
        cmds.get(0),
        Some(DownlinkMacCommand::RXTimingSetupReq(_))
    ));
}

#[test]
fn mac_commands_absent_on_application_port() {
    let fhdr = FHDR::new(DevAddr::new([1, 2, 3, 4]), false, false, false, 0, &[]).unwrap();
    let mut dl = Downlink::new(false, fhdr);
    dl.set_frm_payload(Some(FRMPayload::new_from_slice(7, &[0x08, 0x03])));
    assert!(dl.mac_commands().is_none());
}

#[test]
fn calculate_mic_matches_stored_code() {
    // the MIC-covered prefix of the 18-byte uplink frame above
    let covered: Vec<u8> = vec![
        0x40, 0x04, 0x03, 0x02, 0x01, 0x80, 0x01, 0x00, 0x01, 0xA6, 0x94, 0x64, 0x26, 0x15,
    ];
    let fhdr = FHDR::new(DevAddr::new([4, 3, 2, 1]), true, false, false, 1, &[]).unwrap();
    let uplink = Uplink::new(false, fhdr);
    let mut crypto = get_downlink_crypto();
    let mic = uplink.calculate_mic(&mut crypto, 1, &covered);
    assert_eq!(mic.bytes, [0xD6, 0xC3, 0xB5, 0x82]);
}

#[test]
fn mic_depends_on_covered_length() {
    // shortening the covered prefix changes the length byte of B0 and, with
    // it, the computed code
    let covered: Vec<u8> = vec![
        0x40, 0x04, 0x03, 0x02, 0x01, 0x80, 0x01, 0x00, 0x01, 0xA6, 0x94, 0x64, 0x26, 0x15,
    ];
    let shorter: Vec<u8> = covered[..13].to_vec();
    let fhdr = FHDR::new(DevAddr::new([4, 3, 2, 1]), true, false, false, 1, &[]).unwrap();
    let uplink = Uplink::new(false, fhdr);
    let mut crypto = get_downlink_crypto();
    let full = uplink.calculate_mic(&mut crypto, 1, &covered);
    let cut = uplink.calculate_mic(&mut crypto, 1, &shorter);
    assert_ne!(full.bytes, cut.bytes);
}

#[test]
fn downlink_encode_then_decode_roundtrip() {
    // bit 4 of the frame-control byte carries f_pending on downlink
    let fhdr = FHDR::new(DevAddr::new([9, 8, 7, 6]), false, true, true, 77, &[]).unwrap();
    let mut downlink = Downlink::new(false, fhdr);
    downlink.set_frm_payload(Some(FRMPayload::new_from_slice(10, b"lora")));
    let mut crypto = get_downlink_crypto();
    let bytes = downlink.build(42, &mut crypto).unwrap();
    assert_eq!(&bytes[..9], &[0x60, 9, 8, 7, 6, 0x30, 77, 0, 10]);
    let decoded = Downlink::new_from_encrypted(&bytes, 42, &mut crypto).unwrap();
    assert!(!decoded.confirmed());
    assert!(decoded.fhdr.f_ctrl.f_pending());
    assert!(decoded.fhdr.f_ctrl.ack());
    assert!(!decoded.fhdr.f_ctrl.adr());
    assert_eq!(decoded.fhdr.f_cnt, 77);
    let payload = decoded.frm_payload().as_ref().unwrap();
    assert_eq!(payload.f_port, 10);
    assert_eq!(&payload.data[..], b"lora");
}
