//! The tag-length-value metadata model of the IEEE 802.15.4 TAP link layer
//! and its exact binary serialization.
//!
//! Every encoded field is tag (2 bytes, little-endian) + length (2 bytes,
//! little-endian, the payload length including padding) + payload, and every
//! field's total size is a multiple of 4 bytes. A header is 2 zero bytes, the
//! 2-byte little-endian total header length (counted from the start of the
//! header, the 4 prefix bytes included), then each field's encoding in order.

use crate::bytes::{
    from_le16, from_le32, from_le64, le16, le32, le64, lemma_le16_roundtrip,
    lemma_le32_roundtrip, lemma_le64_roundtrip, push_le16, push_le32, push_le64, read_le16,
    read_le32, read_le64,
};
use vstd::prelude::*;

verus! {

/// The frame-check-sequence kind a frame carries.
#[derive(Clone, Copy, Debug, PartialEq, Eq, Structural)]
pub enum FCS {
    /// No FCS present; encoded as 0.
    Absent,
    CRC16,
    CRC32,
}

impl FCS {
    /// The 16-bit value the kind is encoded as.
    pub open spec fn spec_to_u16(self) -> u16 {
        match self {
            FCS::Absent => 0,
            FCS::CRC16 => 1,
            FCS::CRC32 => 2,
        }
    }

    pub fn to_u16(&self) -> (r: u16)
        ensures
            r == self.spec_to_u16(),
    {
        match self {
            FCS::Absent => 0,
            FCS::CRC16 => 1,
            FCS::CRC32 => 2,
        }
    }
}

/// The frame-check-sequence kind a 16-bit value stands for; values above 2
/// stand for no kind and never come out of an encoding.
pub open spec fn spec_fcs_from(v: int) -> FCS {
    if v == 0 {
        FCS::Absent
    } else if v == 1 {
        FCS::CRC16
    } else {
        FCS::CRC32
    }
}

/// One typed metadata field. Multi-byte values are little-endian; the two
/// signal measurements (received signal strength in dBm and channel center
/// frequency in kHz) are carried as the 32-bit IEEE 754 bit pattern of the
/// measurement, which is exactly what their encoding serializes.
#[derive(Clone, Copy, Debug, PartialEq, Eq, Structural)]
pub enum TLV {
    FCSType(FCS),
    /// Received signal strength, dBm; the field holds the f32 bit pattern.
    RSS(u32),
    /// Bits per second.
    Bitrate(u32),
    /// Channel number, channel page.
    ChannelAssignment(u16, u8),
    /// Band, type, mode.
    SunPhyInformation(u8, u8, u8),
    /// Start of frame, nanoseconds.
    SOFTimestamp(u64),
    /// End of frame, nanoseconds.
    EOFTimestamp(u64),
    /// Absolute slot number.
    ASN(u64),
    /// Start of slot timestamp, nanoseconds.
    SlotTimestamp(u64),
    /// Microseconds.
    TimeslotLength(u64),
    /// Link quality indicator.
    LQI(u8),
    /// Channel center frequency, kHz; the field holds the f32 bit pattern.
    ChannelFrequency(u32),
}

/// The tag and length prefix of one field.
pub fn type_length(t: u16, l: u16) -> (r: Vec<u8>)
    ensures
        r@ == le16(t) + le16(l),
{
    let mut out: Vec<u8> = Vec::new();
    push_le16(&mut out, t);
    push_le16(&mut out, l);
    assert(out@ =~= le16(t) + le16(l));
    out
}

impl TLV {
    /// The exact encoding of one field: tag, length (payload length padding
    /// included), payload, zero padding up to a multiple of 4 bytes.
    pub open spec fn spec_encode(self) -> Seq<u8> {
        match self {
            TLV::FCSType(fcs) => le16(0) + le16(4) + le16(fcs.spec_to_u16()) + seq![0u8, 0u8],
            TLV::RSS(bits) => le16(1) + le16(4) + le32(bits),
            TLV::Bitrate(rate) => le16(2) + le16(4) + le32(rate),
            TLV::ChannelAssignment(num, page) => le16(3) + le16(4) + le16(num) + seq![page, 0u8],
            TLV::SunPhyInformation(band, kind, mode) => le16(4) + le16(4) + seq![
                band,
                kind,
                mode,
                0u8,
            ],
            TLV::SOFTimestamp(ts) => le16(5) + le16(8) + le64(ts),
            TLV::EOFTimestamp(ts) => le16(6) + le16(8) + le64(ts),
            TLV::ASN(num) => le16(7) + le16(8) + le64(num),
            TLV::SlotTimestamp(ts) => le16(8) + le16(8) + le64(ts),
            TLV::TimeslotLength(us) => le16(9) + le16(8) + le64(us),
            TLV::LQI(lqi) => le16(10) + le16(4) + seq![lqi, 0u8, 0u8, 0u8],
            TLV::ChannelFrequency(bits) => le16(11) + le16(4) + le32(bits),
        }
    }

    pub fn as_bytes(&self) -> (r: Vec<u8>)
        ensures
            r@ == self.spec_encode(),
    {
        match self {
            TLV::FCSType(fcs) => {
                let mut out = type_length(0, 4);
                push_le16(&mut out, fcs.to_u16());
                out.push(0);
                out.push(0);
                assert(out@ =~= self.spec_encode());
                out
            },
            TLV::RSS(bits) => {
                let mut out = type_length(1, 4);
                push_le32(&mut out, *bits);
                assert(out@ =~= self.spec_encode());
                out
            },
            TLV::Bitrate(rate) => {
                let mut out = type_length(2, 4);
                push_le32(&mut out, *rate);
                assert(out@ =~= self.spec_encode());
                out
            },
            TLV::ChannelAssignment(num, page) => {
                let mut out = type_length(3, 4);
                push_le16(&mut out, *num);
                out.push(*page);
                out.push(0);
                assert(out@ =~= self.spec_encode());
                out
            },
            TLV::SunPhyInformation(band, kind, mode) => {
                let mut out = type_length(4, 4);
                out.push(*band);
                out.push(*kind);
                out.push(*mode);
                out.push(0);
                assert(out@ =~= self.spec_encode());
                out
            },
            TLV::SOFTimestamp(ts) => {
                let mut out = type_length(5, 8);
                push_le64(&mut out, *ts);
                assert(out@ =~= self.spec_encode());
                out
            },
            TLV::EOFTimestamp(ts) => {
                let mut out = type_length(6, 8);
                push_le64(&mut out, *ts);
                assert(out@ =~= self.spec_encode());
                out
            },
            TLV::ASN(num) => {
                let mut out = type_length(7, 8);
                push_le64(&mut out, *num);
                assert(out@ =~= self.spec_encode());
                out
            },
            TLV::SlotTimestamp(ts) => {
                let mut out = type_length(8, 8);
                push_le64(&mut out, *ts);
                assert(out@ =~= self.spec_encode());
                out
            },
            TLV::TimeslotLength(us) => {
                let mut out = type_length(9, 8);
                push_le64(&mut out, *us);
                assert(out@ =~= self.spec_encode());
                out
            },
            TLV::LQI(lqi) => {
                let mut out = type_length(10, 4);
                out.push(*lqi);
                out.push(0);
                out.push(0);
                out.push(0);
                assert(out@ =~= self.spec_encode());
                out
            },
            TLV::ChannelFrequency(bits) => {
                let mut out = type_length(11, 4);
                push_le32(&mut out, *bits);
                assert(out@ =~= self.spec_encode());
                out
            },
        }
    }

    /// The field a byte sequence stands for: defined exactly when the
    /// sequence is the encoding of one field, padding included.
    pub open spec fn spec_decode(s: Seq<u8>) -> Option<TLV> {
        if s.len() < 4 {
            Option::None
        } else {
            let tag = from_le16(s);
            let len = from_le16(s.skip(2));
            let p = s.skip(4);
            if p.len() != len {
                Option::None
            } else if tag == 0 {
                if len == 4 && from_le16(p) <= 2 && p[2] == 0 && p[3] == 0 {
                    Option::Some(TLV::FCSType(spec_fcs_from(from_le16(p))))
                } else {
                    Option::None
                }
            } else if tag == 1 {
                if len == 4 {
                    Option::Some(TLV::RSS(from_le32(p) as u32))
                } else {
                    Option::None
                }
            } else if tag == 2 {
                if len == 4 {
                    Option::Some(TLV::Bitrate(from_le32(p) as u32))
                } else {
                    Option::None
                }
            } else if tag == 3 {
                if len == 4 && p[3] == 0 {
                    Option::Some(TLV::ChannelAssignment(from_le16(p) as u16, p[2]))
                } else {
                    Option::None
                }
            } else if tag == 4 {
                if len == 4 && p[3] == 0 {
                    Option::Some(TLV::SunPhyInformation(p[0], p[1], p[2]))
                } else {
                    Option::None
                }
            } else if tag == 5 {
                if len == 8 {
                    Option::Some(TLV::SOFTimestamp(from_le64(p) as u64))
                } else {
                    Option::None
                }
            } else if tag == 6 {
                if len == 8 {
                    Option::Some(TLV::EOFTimestamp(from_le64(p) as u64))
                } else {
                    Option::None
                }
            } else if tag == 7 {
                if len == 8 {
                    Option::Some(TLV::ASN(from_le64(p) as u64))
                } else {
                    Option::None
                }
            } else if tag == 8 {
                if len == 8 {
                    Option::Some(TLV::SlotTimestamp(from_le64(p) as u64))
                } else {
                    Option::None
                }
            } else if tag == 9 {
                if len == 8 {
                    Option::Some(TLV::TimeslotLength(from_le64(p) as u64))
                } else {
                    Option::None
                }
            } else if tag == 10 {
                if len == 4 && p[1] == 0 && p[2] == 0 && p[3] == 0 {
                    Option::Some(TLV::LQI(p[0]))
                } else {
                    Option::None
                }
            } else if tag == 11 {
                if len == 4 {
                    Option::Some(TLV::ChannelFrequency(from_le32(p) as u32))
                } else {
                    Option::None
                }
            } else {
                Option::None
            }
        }
    }

    /// Decodes one complete encoded field, padding included; anything that is
    /// not exactly the encoding of one field is rejected.
    pub fn decode(bytes: &Vec<u8>) -> (r: Option<TLV>)
        ensures
            r == Self::spec_decode(bytes@),
    {
        if bytes.len() < 4 {
            return Option::None;
        }
        let tag = read_le16(bytes[0], bytes[1]);
        let len = read_le16(bytes[2], bytes[3]);
        if bytes.len() - 4 != len as usize {
            return Option::None;
        }
        proof {
            assert(from_le16(bytes@) == tag);
            assert(from_le16(bytes@.skip(2)) == len);
            assert(bytes@.skip(4).len() == len);
        }
        if len == 4 {
            let p0 = bytes[4];
            let p1 = bytes[5];
            let p2 = bytes[6];
            let p3 = bytes[7];
            proof {
                assert(bytes@.skip(4) =~= seq![p0, p1, p2, p3]);
            }
            if tag == 0 {
                let v = read_le16(p0, p1);
                if v <= 2 && p2 == 0 && p3 == 0 {
                    let fcs = if v == 0 {
                        FCS::Absent
                    } else if v == 1 {
                        FCS::CRC16
                    } else {
                        FCS::CRC32
                    };
                    Option::Some(TLV::FCSType(fcs))
                } else {
                    Option::None
                }
            } else if tag == 1 {
                Option::Some(TLV::RSS(read_le32(p0, p1, p2, p3)))
            } else if tag == 2 {
                Option::Some(TLV::Bitrate(read_le32(p0, p1, p2, p3)))
            } else if tag == 3 {
                if p3 == 0 {
                    Option::Some(TLV::ChannelAssignment(read_le16(p0, p1), p2))
                } else {
                    Option::None
                }
            } else if tag == 4 {
                if p3 == 0 {
                    Option::Some(TLV::SunPhyInformation(p0, p1, p2))
                } else {
                    Option::None
                }
            } else if tag == 10 {
                if p1 == 0 && p2 == 0 && p3 == 0 {
                    Option::Some(TLV::LQI(p0))
                } else {
                    Option::None
                }
            } else if tag == 11 {
                Option::Some(TLV::ChannelFrequency(read_le32(p0, p1, p2, p3)))
            } else {
                Option::None
            }
        } else if len == 8 {
            let v = read_le64(
                bytes[4],
                bytes[5],
                bytes[6],
                bytes[7],
                bytes[8],
                bytes[9],
                bytes[10],
                bytes[11],
            );
            proof {
                assert(bytes@.skip(4) =~= seq![
                    bytes@[4],
                    bytes@[5],
                    bytes@[6],
                    bytes@[7],
                    bytes@[8],
                    bytes@[9],
                    bytes@[10],
                    bytes@[11],
                ]);
            }
            if tag == 5 {
                Option::Some(TLV::SOFTimestamp(v))
            } else if tag == 6 {
                Option::Some(TLV::EOFTimestamp(v))
            } else if tag == 7 {
                Option::Some(TLV::ASN(v))
            } else if tag == 8 {
                Option::Some(TLV::SlotTimestamp(v))
            } else if tag == 9 {
                Option::Some(TLV::TimeslotLength(v))
            } else {
                Option::None
            }
        } else {
            Option::None
        }
    }
}

/// Law: decoding the encoding of any field gives the field back, and every
/// field's encoding is 4-byte aligned.
pub proof fn lemma_tlv_round_trip(t: TLV)
    ensures
        TLV::spec_decode(t.spec_encode()) == Option::Some(t),
        t.spec_encode().len() % 4 == 0,
{
    let s = t.spec_encode();
    match t {
        TLV::FCSType(fcs) => {
            lemma_le16_roundtrip(fcs.spec_to_u16());
            assert(s.skip(4) =~= le16(fcs.spec_to_u16()) + seq![0u8, 0u8]);
            assert(from_le16(s.skip(4)) == fcs.spec_to_u16());
        },
        TLV::RSS(bits) => {
            lemma_le32_roundtrip(bits);
            assert(s.skip(4) =~= le32(bits));
        },
        TLV::Bitrate(rate) => {
            lemma_le32_roundtrip(rate);
            assert(s.skip(4) =~= le32(rate));
        },
        TLV::ChannelAssignment(num, page) => {
            lemma_le16_roundtrip(num);
            assert(s.skip(4) =~= le16(num) + seq![page, 0u8]);
            assert(from_le16(s.skip(4)) == num);
        },
        TLV::SunPhyInformation(band, kind, mode) => {
            assert(s.skip(4) =~= seq![band, kind, mode, 0u8]);
        },
        TLV::SOFTimestamp(ts) => {
            lemma_le64_roundtrip(ts);
            assert(s.skip(4) =~= le64(ts));
        },
        TLV::EOFTimestamp(ts) => {
            lemma_le64_roundtrip(ts);
            assert(s.skip(4) =~= le64(ts));
        },
        TLV::ASN(num) => {
            lemma_le64_roundtrip(num);
            assert(s.skip(4) =~= le64(num));
        },
        TLV::SlotTimestamp(ts) => {
            lemma_le64_roundtrip(ts);
            assert(s.skip(4) =~= le64(ts));
        },
        TLV::TimeslotLength(us) => {
            lemma_le64_roundtrip(us);
            assert(s.skip(4) =~= le64(us));
        },
        TLV::LQI(lqi) => {
            assert(s.skip(4) =~= seq![lqi, 0u8, 0u8, 0u8]);
        },
        TLV::ChannelFrequency(bits) => {
            lemma_le32_roundtrip(bits);
            assert(s.skip(4) =~= le32(bits));
        },
    }
}

/// The concatenation of the encodings of a sequence of fields, in order.
pub open spec fn spec_fields_bytes(fields: Seq<TLV>) -> Seq<u8>
    decreases fields.len(),
{
    if fields.len() == 0 {
        Seq::empty()
    } else {
        spec_fields_bytes(fields.drop_last()) + fields.last().spec_encode()
    }
}

/// The total header length: the 4 prefix bytes plus every field's encoding.
pub open spec fn spec_header_len(fields: Seq<TLV>) -> int {
    4 + spec_fields_bytes(fields).len() as int
}

/// The exact bytes of a whole header.
pub open spec fn spec_header_bytes(fields: Seq<TLV>) -> Seq<u8> {
    seq![0u8, 0u8] + le16(spec_header_len(fields) as u16) + spec_fields_bytes(fields)
}

/// The one way building a header can fail: the total length does not fit the
/// 16-bit length field.
#[derive(Clone, Copy, Debug, PartialEq, Eq, Structural)]
pub enum HeaderError {
    TooLong,
}

/// An ordered sequence of metadata fields, ready to be serialized as one
/// header.
pub struct TapHeader {
    pub tlvs: Vec<TLV>,
}

impl TapHeader {
    pub fn new(tlvs: Vec<TLV>) -> (r: Self)
        ensures
            r.tlvs == tlvs,
    {
        Self { tlvs }
    }

    /// Serializes the header: 2 zero bytes, the 2-byte little-endian total
    /// length, then each field's encoding in input order. Fails exactly when
    /// the total length overflows the 16-bit length field.
    pub fn as_bytes(self) -> (r: Result<Vec<u8>, HeaderError>)
        ensures
            spec_header_len(self.tlvs@) <= 0xFFFF ==> (r matches Ok(out) && out@
                == spec_header_bytes(self.tlvs@)),
            spec_header_len(self.tlvs@) > 0xFFFF ==> r == Err::<Vec<u8>, HeaderError>(
                HeaderError::TooLong,
            ),
    {
        let mut tlv_bytes: Vec<u8> = Vec::new();
        let mut i: usize = 0;
        while i < self.tlvs.len()
            invariant
                i <= self.tlvs.len(),
                tlv_bytes@ == spec_fields_bytes(self.tlvs@.take(i as int)),
            decreases self.tlvs.len() - i,
        {
            let mut enc = self.tlvs[i].as_bytes();
            tlv_bytes.append(&mut enc);
            proof {
                assert(self.tlvs@.take(i + 1 as int).drop_last() =~= self.tlvs@.take(i as int));
                assert(self.tlvs@.take(i + 1 as int).last() == self.tlvs@[i as int]);
            }
            i = i + 1;
        }
        proof {
            assert(self.tlvs@.take(self.tlvs@.len() as int) =~= self.tlvs@);
        }
        if tlv_bytes.len() > 0xFFFF - 4 {
            return Err(HeaderError::TooLong);
        }
        let total: u16 = (tlv_bytes.len() + 4) as u16;
        let mut out: Vec<u8> = Vec::new();
        out.push(0);
        out.push(0);
        push_le16(&mut out, total);
        out.append(&mut tlv_bytes);
        assert(out@ =~= spec_header_bytes(self.tlvs@));
        Ok(out)
    }
}

} // verus!
