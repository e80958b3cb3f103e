use zigbee_tap::fbits::f32_bits_of_f64_bits;
use zigbee_tap::report::{ParseError, Timestamp, ZigbeePacket};

fn ts() -> Timestamp {
    Timestamp { secs: 1_700_000_000, nanos: 500 }
}

#[test]
fn parse_full_record() {
    let packet =
        ZigbeePacket::from_json("{\"Q\":200,\"R\":-72.5,\"C\":15,\"S\":\"aabbcc\"}", ts()).unwrap();
    assert_eq!(packet.timestamp, ts());
    assert_eq!(packet.lqi, 200);
    assert_eq!(packet.rssi_bits, (-72.5f32).to_bits());
    assert_eq!(packet.channel, 15);
    assert_eq!(packet.payload, vec![0xAA, 0xBB, 0xCC]);
}

#[test]
fn assemble_full_record() {
    let packet =
        ZigbeePacket::from_json("{\"Q\":200,\"R\":-72.5,\"C\":15,\"S\":\"aabbcc\"}", ts()).unwrap();
    let record = packet.as_pcap_packet().unwrap();
    assert_eq!(record.timestamp, ts());
    assert_eq!(record.orig_len, 31);
    let mut expected: Vec<u8> = vec![0x00, 0x00, 0x1C, 0x00];
    expected.extend_from_slice(&[0x01, 0x00, 0x04, 0x00]);
    expected.extend_from_slice(&(-72.5f32).to_bits().to_le_bytes());
    expected.extend_from_slice(&[0x0A, 0x00, 0x04, 0x00, 200, 0x00, 0x00, 0x00]);
    expected.extend_from_slice(&[0x03, 0x00, 0x04, 0x00, 0x0F, 0x00, 0x00, 0x00]);
    expected.extend_from_slice(&[0xAA, 0xBB, 0xCC]);
    assert_eq!(record.data, expected);
}

#[test]
fn parse_missing_payload_fails() {
    let r = ZigbeePacket::from_json("{\"Q\":200,\"R\":-72.5,\"C\":15}", ts());
    assert!(matches!(r, Err(ParseError::PayloadMissing)));
}

#[test]
fn parse_invalid_hex_fails() {
    let r = ZigbeePacket::from_json("{\"Q\":1,\"R\":0.0,\"C\":1,\"S\":\"xyz\"}", ts());
    assert!(matches!(r, Err(ParseError::PayloadNotHex)));
}

#[test]
fn parse_odd_length_hex_fails() {
    let r = ZigbeePacket::from_json("{\"Q\":1,\"R\":0.0,\"C\":1,\"S\":\"a\"}", ts());
    assert!(matches!(r, Err(ParseError::PayloadNotHex)));
}

#[test]
fn parse_quality_out_of_range_fails() {
    let r = ZigbeePacket::from_json("{\"Q\":300,\"R\":0.0,\"C\":1,\"S\":\"aa\"}", ts());
    assert!(matches!(r, Err(ParseError::LqiOutOfRange)));
}

#[test]
fn parse_channel_out_of_range_fails() {
    let r = ZigbeePacket::from_json("{\"Q\":1,\"R\":0.0,\"C\":256,\"S\":\"aa\"}", ts());
    assert!(matches!(r, Err(ParseError::ChannelOutOfRange)));
}

#[test]
fn parse_missing_strength_defaults_to_zero() {
    let packet = ZigbeePacket::from_json("{\"Q\":7,\"C\":3,\"S\":\"00ff\"}", ts()).unwrap();
    assert_eq!(packet.rssi_bits, 0.0f32.to_bits());
    assert_eq!(packet.lqi, 7);
    assert_eq!(packet.channel, 3);
    assert_eq!(packet.payload, vec![0x00, 0xFF]);
}

#[test]
fn parse_missing_numeric_fields_default_to_zero() {
    let packet = ZigbeePacket::from_json("{\"S\":\"ab\"}", ts()).unwrap();
    assert_eq!(packet.lqi, 0);
    assert_eq!(packet.channel, 0);
    assert_eq!(packet.rssi_bits, 0);
    assert_eq!(packet.payload, vec![0xAB]);
}

#[test]
fn parse_malformed_record_fails() {
    let r = ZigbeePacket::from_json("not a record", ts());
    assert!(matches!(r, Err(ParseError::MalformedRecord)));
    let r = ZigbeePacket::from_json("{\"Q\":", ts());
    assert!(matches!(r, Err(ParseError::MalformedRecord)));
}

#[test]
fn parse_empty_payload_string() {
    let packet = ZigbeePacket::from_json("{\"S\":\"\"}", ts()).unwrap();
    assert_eq!(packet.payload, Vec::<u8>::new());
}

#[test]
fn parse_upper_case_hex() {
    let packet = ZigbeePacket::from_json("{\"S\":\"AaBbCcDd\"}", ts()).unwrap();
    assert_eq!(packet.payload, vec![0xAA, 0xBB, 0xCC, 0xDD]);
}

#[test]
fn from_fields_error_order() {
    // the quality range error wins over every later error
    let r = ZigbeePacket::from_fields(ts(), Some(300), None, Some(999), None);
    assert!(matches!(r, Err(ParseError::LqiOutOfRange)));
    let r = ZigbeePacket::from_fields(ts(), Some(1), None, Some(999), None);
    assert!(matches!(r, Err(ParseError::ChannelOutOfRange)));
    let r = ZigbeePacket::from_fields(ts(), Some(1), None, Some(1), None);
    assert!(matches!(r, Err(ParseError::PayloadMissing)));
}

#[test]
fn from_fields_boundary_values() {
    let p = ZigbeePacket::from_fields(ts(), Some(255), Some(5), Some(255), Some("0102")).unwrap();
    assert_eq!(p.lqi, 255);
    assert_eq!(p.channel, 255);
    assert_eq!(p.rssi_bits, 5);
    assert_eq!(p.payload, vec![1, 2]);
}

#[test]
fn new_copies_payload() {
    let p = ZigbeePacket::new(ts(), 9, 8, 7, &[1, 2, 3]);
    assert_eq!(p.lqi, 9);
    assert_eq!(p.rssi_bits, 8);
    assert_eq!(p.channel, 7);
    assert_eq!(p.payload, vec![1, 2, 3]);
    assert_eq!(p.timestamp, ts());
}

#[test]
fn narrowing_matches_hardware_cast() {
    let values: Vec<f64> = vec![
        0.0,
        -0.0,
        1.0,
        -1.0,
        -72.5,
        0.1,
        -0.1,
        1.0 / 3.0,
        2.5e-1,
        1234.5678,
        -9876.54321,
        3.4e38,
        -3.4e38,
        3.5e38,
        1.0e39,
        -1.0e39,
        1.0e-40,
        -1.0e-40,
        1.0e-45,
        7.0e-46,
        1.0e-46,
        5.0e-324,
        -5.0e-324,
        f64::MIN_POSITIVE,
        f64::MAX,
        f64::MIN,
        f64::INFINITY,
        f64::NEG_INFINITY,
        16777216.0,
        16777217.0,
        16777218.0,
        16777219.0,
        -16777219.0,
        1.0000000596046448, // one plus 2^-24, a tie
        1.0000001,
        33554430.0,
        65504.0,
        2.0f64.powi(127),
        2.0f64.powi(128),
        1.9999999f64 * 2.0f64.powi(127),
    ];
    for v in values {
        assert_eq!(
            f32_bits_of_f64_bits(v.to_bits()),
            (v as f32).to_bits(),
            "narrowing {v} gave the wrong bits"
        );
    }
}

#[test]
fn parse_tolerates_surrounding_whitespace() {
    let packet =
        ZigbeePacket::from_json("  {\"Q\":9,\"C\":2,\"S\":\"0a\"}\r\n", ts()).unwrap();
    assert_eq!(packet.lqi, 9);
    assert_eq!(packet.channel, 2);
    assert_eq!(packet.payload, vec![0x0A]);
}

#[test]
fn narrowing_matches_hardware_cast_on_bit_patterns() {
    // a deterministic linear congruential sweep over binary64 bit patterns
    let mut x: u64 = 0x9E37_79B9_7F4A_7C15;
    for _ in 0..20_000 {
        x = x.wrapping_mul(6364136223846793005).wrapping_add(1442695040888963407);
        let v = f64::from_bits(x);
        let narrowed = f32::from_bits(f32_bits_of_f64_bits(x));
        let cast = v as f32;
        if v.is_nan() {
            assert!(narrowed.is_nan());
            assert!(cast.is_nan());
        } else {
            assert_eq!(
                narrowed.to_bits(),
                cast.to_bits(),
                "narrowing bit pattern {x:#018x} gave the wrong bits"
            );
        }
    }
    // and a sweep concentrated on small exponents, where subnormals live
    let mut y: u64 = 1;
    for _ in 0..20_000 {
        y = y.wrapping_mul(6364136223846793005).wrapping_add(1442695040888963407);
        let bits = y % 0x3990_0000_0000_0000; // exponents up to the binary32 range
        let v = f64::from_bits(bits);
        assert_eq!(
            f32_bits_of_f64_bits(bits),
            (v as f32).to_bits(),
            "narrowing bit pattern {bits:#018x} gave the wrong bits"
        );
    }
}
