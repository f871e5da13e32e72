use lorawan_encoding::phy_payload::join_accept::{DlSettings, JoinAccept};
use lorawan_encoding::phy_payload::join_request::JoinRequest;
use lorawan_encoding::types::{DevAddr, DevEui, DevNonce, JoinEui};
use lorawan_encoding::Error;

#[test]
fn decode_join_accept() {
    let join_accept = JoinAccept::from_bytes(&[
        0x20, 0x01, 0x02, 0x03, 0x04, 0x05, 0x06, 0x07, 0x08, 0x09, 0x0a, 0x55, 0x0c,
    ])
    .unwrap();
    assert_eq!(&join_accept.join_nonce, &[0x01, 0x02, 0x03]);
    assert_eq!(&join_accept.net_id, &[0x04, 0x05, 0x06]);
    assert_eq!(&join_accept.dev_addr, &[0x07, 0x08, 0x09, 0x0a]);
    assert_eq!(
        &join_accept.dl_settings,
        &DlSettings::new().with_rx1_dr_offset(5).with_rx2_dr(5)
    );
    assert_eq!(join_accept.rx_delay, 0x0c);
}

#[test]
fn encode_join_request() {
    let join_request = JoinRequest::new(
        JoinEui::new([0x01, 0x02, 0x03, 0x04, 0x05, 0x06, 0x07, 0x08]),
        DevEui::new([0x10, 0x20, 0x30, 0x40, 0x50, 0x60, 0x70, 0x80]),
        DevNonce::new([0x11, 0x22]),
    );
    assert_eq!(
        join_request.as_bytes(),
        vec![
            0x00, 0x01, 0x02, 0x03, 0x04, 0x05, 0x06, 0x07, 0x08, 0x10, 0x20, 0x30, 0x40, 0x50,
            0x60, 0x70, 0x80, 0x11, 0x22
        ]
    );
    assert_eq!(join_request.dev_nonce.bytes, [0x11, 0x22]);
}

#[test]
fn decode_join_accept_with_cf_list() {
    let mut bytes = vec![
        0x20, 0x01, 0x02, 0x03, 0x04, 0x05, 0x06, 0x07, 0x08, 0x09, 0x0a, 0x55, 0x0c,
    ];
    let cf_list: Vec<u8> = (1..=16).collect();
    bytes.extend_from_slice(&cf_list);
    let join_accept = JoinAccept::from_bytes(&bytes).unwrap();
    assert_eq!(join_accept.cf_list, cf_list);
}

#[test]
fn decode_join_accept_errors() {
    // too short for the fixed fields
    assert_eq!(
        JoinAccept::from_bytes(&[0x20, 0x01]).map(|_| ()),
        Err(Error::Size)
    );
    // wrong MAC header
    assert_eq!(
        JoinAccept::from_bytes(&[
            0x40, 0x01, 0x02, 0x03, 0x04, 0x05, 0x06, 0x07, 0x08, 0x09, 0x0a, 0x55, 0x0c,
        ])
        .map(|_| ()),
        Err(Error::Payload)
    );
    // a channel-frequency list must hold 0 or 16 bytes
    assert_eq!(
        JoinAccept::from_bytes(&[
            0x20, 0x01, 0x02, 0x03, 0x04, 0x05, 0x06, 0x07, 0x08, 0x09, 0x0a, 0x55, 0x0c, 0x01,
        ])
        .map(|_| ()),
        Err(Error::Size)
    );
}

#[test]
fn dev_addr_view_length_is_checked() {
    let a = DevAddr::from_slice(&[1, 2, 3, 4]).unwrap();
    assert_eq!(a.bytes, [1, 2, 3, 4]);
    assert_eq!(DevAddr::from_slice(&[1, 2, 3]).map(|_| ()), Err(Error::Size));
    assert_eq!(
        DevAddr::from_slice(&[1, 2, 3, 4, 5]).map(|_| ()),
        Err(Error::Size)
    );
}
