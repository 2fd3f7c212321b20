use h100i_tool::wire::{
    crc8, CoolingCurve, CurvePoint, FanStatus, Msg, PumpMode, SetCooling, Status, TempStatus,
    MSG_SIZE,
};
use h100i_tool::{Config, H100iError};

const STATUS_REPLY: [u8; 64] = [
    255, 224, 18, 8, 0, 223, 18, 199, 34, 0, 0, 132, 232, 3, 132, 216, 3, 0, 132, 232, 3, 132,
    235, 3, 2, 255, 0, 0, 255, 128, 11, 0, 0, 0, 0, 0, 0, 0, 0, 35, 1, 1, 35, 0, 0, 45, 188, 186,
    0, 5, 45, 50, 55, 65, 221, 34, 0, 0, 0, 0, 0, 0, 0, 218u8,
];

const SET_COOLING_BALANCED: [u8; 64] = [
    63, 216, 20, 0, 255, 5, 255, 255, 255, 255, 255, 0, 0, 0, 0, 0, 0, 0, 0, 0, 0, 0, 0, 1, 255,
    255, 0, 0, 255, 7, 30, 51, 32, 79, 33, 105, 35, 135, 37, 173, 41, 212, 42, 255, 30, 51, 32, 79,
    33, 105, 35, 135, 37, 173, 41, 212, 42, 255, 255, 255, 255, 255, 255, 77u8,
];

/// CRC-8 by bitwise polynomial division (poly 0x07, init 0, no reflection, no final xor).
fn crc8_bitwise(data: &[u8]) -> u8 {
    let mut crc: u8 = 0;
    for b in data {
        crc ^= b;
        for _ in 0..8 {
            crc = if crc & 0x80 != 0 { (crc << 1) ^ 0x07 } else { crc << 1 };
        }
    }
    crc
}

#[test]
fn test_crc() {
    assert_eq!(crc8(&[0, 1, 2, 3]), 0x48);
    assert_eq!(crc8(&[30, 12, 24, 36]), 0x5a);
    assert_eq!(
        crc8(&[
            136, 18, 8, 0, 159, 21, 125, 35, 0, 0, 144, 232, 3, 144, 64, 4, 0, 144, 232, 3, 144,
            82, 4, 2, 255, 0, 0, 255, 139, 11, 0, 0, 0, 0, 0, 0, 0, 0, 69, 50, 51, 69, 0, 0, 64,
            227, 111, 0, 5, 45, 50, 55, 65, 106, 35, 0, 0, 0, 0, 0, 0, 0
        ]),
        0xd3
    );
}

#[test]
fn test_status() {
    let on_wire = STATUS_REPLY;
    assert_eq!(on_wire.len(), MSG_SIZE);
    let status = Status::read_from(&on_wire[3..MSG_SIZE - 1]);
    assert!(status.is_some());
    let status = status.unwrap();
    println!("status: {status:#?}");
    println!("status size: {}", h100i_tool::wire::STATUS_SIZE);

    let wire_msg = Msg::from_slice(&on_wire).expect("should be parsable");
    let parsed = wire_msg.parse();
    println!("parsed: {parsed:?}");
    if let Ok(h100i_tool::Msg::Status(status)) = parsed {
        println!("status: {status:#?}");
    } else {
        assert!(false, "was not status message");
    }
}

#[test]
fn test_set_cooling() {
    let on_wire = SET_COOLING_BALANCED;
    assert_eq!(on_wire.len(), MSG_SIZE);
    let set_cooling = SetCooling::read_from(&on_wire[3..MSG_SIZE - 1]);
    assert!(set_cooling.is_some());
    let set_cooling = set_cooling.unwrap();
    println!("set_cooling: {set_cooling:#?}");
    for curve in set_cooling.curves.iter() {
        assert_eq!(curve, &CoolingCurve::balanced());
    }
}

#[test]
fn crc8_of_empty_is_zero() {
    assert_eq!(crc8(&[]), 0);
}

#[test]
fn crc8_agrees_with_bitwise_division() {
    let samples: [&[u8]; 5] = [
        &[0x00],
        &[0xff],
        &[0xc0, 0xff],
        &[1, 2, 3, 4, 5, 6, 7, 8, 9, 10, 200, 201, 202],
        &STATUS_REPLY[1..63],
    ];
    for s in samples.iter() {
        assert_eq!(crc8(s), crc8_bitwise(s));
    }
    for b in 0..=255u8 {
        assert_eq!(crc8(&[b]), crc8_bitwise(&[b]));
    }
}

#[test]
fn crc8_residue_of_appended_checksum_is_zero() {
    let mut data = vec![0x12u8, 0x34, 0x56, 0x78, 0x9a];
    let c = crc8(&data);
    data.push(c);
    assert_eq!(crc8(&data), 0);
    data.pop();
    data.push(c ^ 1);
    assert_ne!(crc8(&data), 0);
}

#[test]
fn msg_new_is_a_zero_request() {
    let msg = Msg::new();
    let bytes = msg.as_array();
    assert_eq!(bytes[0], 0x3f);
    assert!(bytes[1..].iter().all(|b| *b == 0));
}

#[test]
fn msg_from_slice_refuses_wrong_length() {
    assert!(matches!(Msg::from_slice(&[0u8; 63]), Err(H100iError::ParseLengthError)));
    assert!(matches!(Msg::from_slice(&[0u8; 65]), Err(H100iError::ParseLengthError)));
    assert!(matches!(Msg::from_slice(&[]), Err(H100iError::ParseLengthError)));
}

#[test]
fn msg_from_slice_then_as_array_round_trips() {
    let msg = Msg::from_slice(&STATUS_REPLY).unwrap();
    assert_eq!(msg.magic, 0xff);
    assert_eq!(msg.sequence, 224);
    assert_eq!(msg.command, 0x12);
    assert_eq!(msg.crc, 218);
    assert_eq!(msg.as_array(), STATUS_REPLY);
}

#[test]
fn msg_update_crc_makes_valid() {
    let mut msg = Msg::new();
    msg.sequence = 0xc0;
    msg.command = 0xff;
    assert!(!msg.is_valid());
    msg.update_crc();
    assert_eq!(msg.crc, 0x35);
    assert!(msg.is_valid());
    assert!(Msg::from_slice(&STATUS_REPLY).unwrap().is_valid());
    assert!(Msg::from_slice(&SET_COOLING_BALANCED).unwrap().is_valid());
}

#[test]
fn msg_parse_refuses_bad_checksum() {
    let mut bytes = STATUS_REPLY;
    bytes[10] ^= 0x01;
    let msg = Msg::from_slice(&bytes).unwrap();
    assert!(!msg.is_valid());
    match msg.parse() {
        Err(H100iError::CrcError(raw)) => assert_eq!(raw, bytes),
        other => panic!("expected a checksum error, got {other:?}"),
    }
}

#[test]
fn msg_parse_refuses_request_magic_on_status() {
    let mut msg = Msg::from_slice(&STATUS_REPLY).unwrap();
    msg.magic = 0x3f;
    assert!(msg.is_valid());
    match msg.parse() {
        Err(H100iError::ParseError((why, raw))) => {
            assert_eq!(why, "magic was not 0xff");
            assert_eq!(raw, msg.as_array());
        }
        other => panic!("expected a parse error, got {other:?}"),
    }
}

#[test]
fn msg_parse_status_fields() {
    let msg = Msg::from_slice(&STATUS_REPLY).unwrap();
    let h100i_tool::Msg::Status(status) = msg.parse().unwrap();
    assert_eq!(status.msg_counter, 4831);
    assert_eq!(status.uptime_ms, 12237869);
    assert_eq!((status.temperature_1.deg, status.temperature_1.frac), (34, 199));
    assert_eq!((status.temperature_2.deg, status.temperature_2.frac), (34, 221));
    let speeds: Vec<u16> = status.fans.iter().map(|f| f.speed.0).collect();
    let duties: Vec<u8> = status.fans.iter().map(|f| f.duty_cycle.0).collect();
    assert_eq!(speeds, vec![984, 1003, 2944, 0]);
    assert_eq!(duties, vec![132, 132, 255, 0]);
}

#[test]
fn status_read_from_fields() {
    let status = Status::read_from(&STATUS_REPLY[3..63]).unwrap();
    assert_eq!(status._always_08, 8);
    assert_eq!(status.msg_counter, 4831);
    assert_eq!(status.fans[1].value, 1003);
    assert_eq!(status.fans[1]._pad, 2);
    assert_eq!(status._something_le, 291);
    assert_eq!(status._something_be, 8961);
    assert_eq!(status.uptime_ms, 12237869);
    assert_eq!(status._some_id, [5, 45, 50, 55, 65]);
    assert_eq!(status._pad_5_zero, [0; 7]);
    let t = TempStatus { frac: 221, deg: 34 };
    assert_eq!((status.value_end_t1.frac, status.value_end_t1.deg), (t.frac, t.deg));
}

#[test]
fn status_read_from_refuses_wrong_length() {
    assert!(Status::read_from(&STATUS_REPLY).is_none());
    assert!(Status::read_from(&STATUS_REPLY[3..62]).is_none());
}

#[test]
fn set_cooling_from_balanced_config_matches_capture() {
    let set_cooling = SetCooling::from_config(&Config::balanced());
    assert_eq!(set_cooling.as_bytes()[..], SET_COOLING_BALANCED[3..63]);
    assert_eq!(set_cooling.pump, 1);
}

#[test]
fn set_cooling_pump_bytes() {
    let mut config = Config::balanced();
    config.pump = PumpMode::Quiet;
    assert_eq!(SetCooling::from_config(&config).as_bytes()[20], 0);
    config.pump = PumpMode::Extreme;
    assert_eq!(SetCooling::from_config(&config).as_bytes()[20], 2);
    assert_eq!(PumpMode::default().as_byte(), 1);
}

#[test]
fn set_cooling_round_trips() {
    let set_cooling = SetCooling::from_config(&Config::extreme());
    let bytes = set_cooling.as_bytes();
    let back = SetCooling::read_from(&bytes).unwrap();
    assert_eq!(back.as_bytes(), bytes);
    assert_eq!(back.curves, [CoolingCurve::extreme(); 2]);
    assert!(SetCooling::read_from(&bytes[1..]).is_none());
}

#[test]
fn cooling_curves() {
    let balanced = CoolingCurve::balanced();
    assert_eq!(balanced.curve[0], CurvePoint { temperature: 30, duty: 51 });
    assert_eq!(balanced.curve[6], CurvePoint { temperature: 42, duty: 255 });
    let temps: Vec<u8> = CoolingCurve::extreme().curve.iter().map(|p| p.temperature).collect();
    let duties: Vec<u8> = CoolingCurve::extreme().curve.iter().map(|p| p.duty).collect();
    assert_eq!(temps, vec![26, 27, 28, 29, 30, 31, 32]);
    assert_eq!(duties, vec![89, 110, 135, 163, 189, 219, 255]);
    assert_eq!(CoolingCurve::quiet(), CoolingCurve::balanced());
}

#[test]
fn status_as_bytes_round_trips() {
    let payload = &STATUS_REPLY[3..63];
    let status = Status::read_from(payload).unwrap();
    assert_eq!(&status.as_bytes()[..], payload);
    let mut changed = status;
    changed.uptime_ms = 0x0102_0304;
    changed.fans[2].value = 0xabcd;
    let bytes = changed.as_bytes();
    assert_eq!(&bytes[42..46], &[4, 3, 2, 1]);
    assert_eq!(&bytes[26..28], &[0xcd, 0xab]);
    let back = Status::read_from(&bytes).unwrap();
    assert_eq!(back.uptime_ms, 0x0102_0304);
    assert_eq!(back.fans[2].value, 0xabcd);
}

#[test]
fn cooling_curve_as_bytes_matches_capture() {
    assert_eq!(CoolingCurve::balanced().as_bytes()[..], SET_COOLING_BALANCED[30..44]);
    let curve = CoolingCurve::read_at(&SET_COOLING_BALANCED, 44);
    assert_eq!(curve, CoolingCurve::balanced());
}

#[test]
fn small_record_readers() {
    let payload = &STATUS_REPLY[3..63];
    let fan = FanStatus::read_at(payload, 15);
    assert_eq!((fan.duty_1, fan._e8, fan._is03, fan.duty_2, fan.value, fan._pad), (132, 232, 3, 132, 1003, 2));
    let t = TempStatus::read_at(payload, 4);
    assert_eq!((t.frac, t.deg), (199, 34));
    let p = CurvePoint::read_at(&SET_COOLING_BALANCED, 30);
    assert_eq!(p, CurvePoint { temperature: 30, duty: 51 });
}
