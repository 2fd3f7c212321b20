use h100i_tool::wire::{Msg, MSG_SIZE};
use h100i_tool::{is_h100i, Config, RequestBuilder, PRODUCT_ID, VENDOR_ID};

#[test]
fn builder_starts_at_0x90() {
    assert_eq!(RequestBuilder::new().sequence, 0x90);
}

#[test]
fn advance_sequence_steps_by_eight_and_wraps() {
    let mut b = RequestBuilder::new();
    assert_eq!(b.advance_sequence(), 0x98);
    assert_eq!(b.sequence, 0x98);
    b.sequence = 0xf8;
    assert_eq!(b.advance_sequence(), 0x00);
    b.sequence = 0xfc;
    assert_eq!(b.advance_sequence(), 0x04);
}

#[test]
fn prepend_zero_adds_report_id() {
    assert_eq!(RequestBuilder::prepend_zero(&[7, 8, 9]), vec![0, 7, 8, 9]);
    assert_eq!(RequestBuilder::prepend_zero(&[]), vec![0]);
}

#[test]
fn status_requests_match_capture() {
    // Captured requests: 3f:c0:ff:00..00:35, 3f:c8:ff:00..00:da, 3f:d0:ff:00..00:ec.
    let mut b = RequestBuilder::new();
    for _ in 0..5 {
        b.status_request();
    }
    for (sequence, crc) in [(0xc0u8, 0x35u8), (0xc8, 0xda), (0xd0, 0xec)] {
        let report = b.status_request();
        assert_eq!(report.len(), MSG_SIZE + 1);
        assert_eq!(&report[..4], &[0, 0x3f, sequence, 0xff]);
        assert!(report[4..64].iter().all(|x| *x == 0));
        assert_eq!(report[64], crc);
        assert!(Msg::from_slice(&report[1..]).unwrap().is_valid());
    }
}

#[test]
fn set_config_request_matches_capture() {
    let captured: [u8; 64] = [
        63, 216, 20, 0, 255, 5, 255, 255, 255, 255, 255, 0, 0, 0, 0, 0, 0, 0, 0, 0, 0, 0, 0, 1,
        255, 255, 0, 0, 255, 7, 30, 51, 32, 79, 33, 105, 35, 135, 37, 173, 41, 212, 42, 255, 30,
        51, 32, 79, 33, 105, 35, 135, 37, 173, 41, 212, 42, 255, 255, 255, 255, 255, 255, 77,
    ];
    let mut b = RequestBuilder::new();
    b.sequence = 0xd0;
    let report = b.set_config_request(&Config::balanced());
    assert_eq!(b.sequence, 0xd8);
    assert_eq!(report[0], 0);
    assert_eq!(&report[1..], &captured[..]);
}

#[test]
fn config_profiles() {
    let extreme = Config::extreme();
    assert_eq!(extreme.pump.as_byte(), 2);
    assert_eq!(extreme.fans, [h100i_tool::wire::CoolingCurve::extreme(); 2]);
    assert_eq!(Config::quiet().pump.as_byte(), 0);
    assert_eq!(Config::balanced().pump.as_byte(), 1);
}

#[test]
fn device_ids() {
    assert!(is_h100i(0x1b1c, 0x0c35));
    assert!(is_h100i(VENDOR_ID, PRODUCT_ID));
    assert!(!is_h100i(0x1b1c, 0x0c36));
    assert!(!is_h100i(0x1b1d, 0x0c35));
}
