use zigbee_tap::tap::{type_length, HeaderError, TapHeader, FCS, TLV};

fn all_variants() -> Vec<TLV> {
    vec![
        TLV::FCSType(FCS::Absent),
        TLV::FCSType(FCS::CRC16),
        TLV::FCSType(FCS::CRC32),
        TLV::RSS(1.0f32.to_bits()),
        TLV::Bitrate(250_000),
        TLV::ChannelAssignment(11, 0),
        TLV::ChannelAssignment(0xABCD, 7),
        TLV::SunPhyInformation(1, 2, 3),
        TLV::SOFTimestamp(0),
        TLV::SOFTimestamp(u64::MAX),
        TLV::EOFTimestamp(123_456_789_000),
        TLV::ASN(0xDEAD_BEEF_CAFE_F00D),
        TLV::SlotTimestamp(42),
        TLV::TimeslotLength(10_000),
        TLV::LQI(0),
        TLV::LQI(255),
        TLV::ChannelFrequency(2_405_000f32.to_bits()),
    ]
}

#[test]
fn tlv_round_trip_every_variant() {
    for field in all_variants() {
        let encoded = field.as_bytes();
        let decoded = TLV::decode(&encoded);
        assert_eq!(decoded, Some(field));
    }
}

#[test]
fn tlv_alignment_every_variant() {
    for field in all_variants() {
        assert_eq!(field.as_bytes().len() % 4, 0);
    }
}

#[test]
fn fcs_to_u16_values() {
    assert_eq!(FCS::Absent.to_u16(), 0);
    assert_eq!(FCS::CRC16.to_u16(), 1);
    assert_eq!(FCS::CRC32.to_u16(), 2);
}

#[test]
fn type_length_little_endian() {
    assert_eq!(type_length(3, 4), vec![3, 0, 4, 0]);
    assert_eq!(type_length(0x1234, 0xABCD), vec![0x34, 0x12, 0xCD, 0xAB]);
}

#[test]
fn lqi_exact_bytes() {
    assert_eq!(TLV::LQI(5).as_bytes(), vec![0x0A, 0x00, 0x04, 0x00, 0x05, 0x00, 0x00, 0x00]);
}

#[test]
fn rss_exact_bytes() {
    let bits = 1.0f32.to_bits();
    assert_eq!(bits, 0x3F80_0000);
    assert_eq!(
        TLV::RSS(bits).as_bytes(),
        vec![0x01, 0x00, 0x04, 0x00, 0x00, 0x00, 0x80, 0x3F]
    );
}

#[test]
fn channel_assignment_exact_bytes() {
    assert_eq!(
        TLV::ChannelAssignment(11, 0).as_bytes(),
        vec![0x03, 0x00, 0x04, 0x00, 0x0B, 0x00, 0x00, 0x00]
    );
}

#[test]
fn fcs_type_exact_bytes() {
    assert_eq!(
        TLV::FCSType(FCS::CRC16).as_bytes(),
        vec![0x00, 0x00, 0x04, 0x00, 0x01, 0x00, 0x00, 0x00]
    );
}

#[test]
fn timestamp_exact_bytes() {
    assert_eq!(
        TLV::SOFTimestamp(0x0102_0304_0506_0708).as_bytes(),
        vec![0x05, 0x00, 0x08, 0x00, 0x08, 0x07, 0x06, 0x05, 0x04, 0x03, 0x02, 0x01]
    );
}

#[test]
fn decode_rejects_unknown_tag() {
    assert_eq!(TLV::decode(&vec![0x0C, 0x00, 0x04, 0x00, 0, 0, 0, 0]), None);
}

#[test]
fn decode_rejects_bad_padding() {
    // an LQI field whose padding bytes are not zero
    assert_eq!(TLV::decode(&vec![0x0A, 0x00, 0x04, 0x00, 0x05, 0x01, 0x00, 0x00]), None);
}

#[test]
fn decode_rejects_truncated_field() {
    assert_eq!(TLV::decode(&vec![0x0A, 0x00, 0x04, 0x00, 0x05]), None);
    assert_eq!(TLV::decode(&vec![0x0A, 0x00]), None);
}

#[test]
fn decode_rejects_fcs_value_out_of_range() {
    assert_eq!(TLV::decode(&vec![0x00, 0x00, 0x04, 0x00, 0x03, 0x00, 0x00, 0x00]), None);
}

#[test]
fn empty_header_is_four_bytes() {
    let header = TapHeader::new(Vec::new());
    assert_eq!(header.as_bytes(), Ok(vec![0x00, 0x00, 0x04, 0x00]));
}

#[test]
fn three_field_header_matches_fixture() {
    let header = TapHeader::new(vec![
        TLV::RSS(1.0f32.to_bits()),
        TLV::LQI(5),
        TLV::ChannelAssignment(11, 0),
    ]);
    let bytes = header.as_bytes().unwrap();
    // total length 4 + 8 + 8 + 8 = 28
    assert_eq!(bytes[2], 28);
    assert_eq!(bytes[3], 0);
    let fixture: Vec<u8> = vec![
        0x00, 0x00, 0x1C, 0x00, // prefix and total length
        0x01, 0x00, 0x04, 0x00, 0x00, 0x00, 0x80, 0x3F, // RSS 1.0
        0x0A, 0x00, 0x04, 0x00, 0x05, 0x00, 0x00, 0x00, // LQI 5
        0x03, 0x00, 0x04, 0x00, 0x0B, 0x00, 0x00, 0x00, // channel 11, page 0
    ];
    assert_eq!(bytes, fixture);
}

#[test]
fn header_order_is_kept() {
    let header = TapHeader::new(vec![TLV::LQI(1), TLV::LQI(2)]);
    let bytes = header.as_bytes().unwrap();
    assert_eq!(bytes[4..12], [0x0A, 0x00, 0x04, 0x00, 0x01, 0x00, 0x00, 0x00]);
    assert_eq!(bytes[12..20], [0x0A, 0x00, 0x04, 0x00, 0x02, 0x00, 0x00, 0x00]);
}

#[test]
fn header_too_long_is_refused() {
    let header = TapHeader::new(vec![TLV::SOFTimestamp(0); 6000]);
    assert_eq!(header.as_bytes(), Err(HeaderError::TooLong));
}
