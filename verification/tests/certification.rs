use lorawan_encoding::mac_command::certification::downlink::{
    CertificationDownlinkMacCommand, SwitchClassReq, PACKET_VERSION_CID,
};
use lorawan_encoding::Error;

#[test]
fn decode_packet_version_req() {
    let command = CertificationDownlinkMacCommand::decode(&[PACKET_VERSION_CID]).unwrap();
    assert!(matches!(
        command,
        CertificationDownlinkMacCommand::PackageVersionReq
    ));
}

#[test]
fn decode_echo_payload_req() {
    let buf = [0x08u8, 0x01, 0x02, 0x03];
    let command = CertificationDownlinkMacCommand::decode(&buf).unwrap();
    if let CertificationDownlinkMacCommand::EchoPayloadReq(payload) = command {
        assert_eq!(payload, vec![0x01, 0x02, 0x03]);
    } else {
        assert!(false, "Wrong command type")
    }
}

#[test]
fn decode_switch_class_req() {
    let command = CertificationDownlinkMacCommand::decode(&[0x03, 0x02]).unwrap();
    assert!(matches!(
        command,
        CertificationDownlinkMacCommand::SwitchClassReq(SwitchClassReq::C)
    ));
}

#[test]
fn decode_rx_app_cnt_req_little_endian() {
    let command = CertificationDownlinkMacCommand::decode(&[0x09, 0x34, 0x12]).unwrap();
    assert!(matches!(
        command,
        CertificationDownlinkMacCommand::RxAppCntReq(0x1234)
    ));
}

#[test]
fn decode_certification_errors() {
    // empty span: too short to hold a CID
    assert_eq!(
        CertificationDownlinkMacCommand::decode(&[]),
        Err(Error::Size)
    );
    // unknown CID
    assert_eq!(
        CertificationDownlinkMacCommand::decode(&[0x30]),
        Err(Error::Payload)
    );
    // illegal class discriminant
    assert_eq!(
        CertificationDownlinkMacCommand::decode(&[0x03, 0x09]),
        Err(Error::Payload)
    );
    // truncated fixed payload
    assert_eq!(
        CertificationDownlinkMacCommand::decode(&[0x04]),
        Err(Error::Size)
    );
}
