//! One decoded line of device output, and its assembly into a capture
//! record: the metadata header bytes followed by the raw payload.

use crate::fbits::{f32_bits_of_f64_bits, spec_f32_bits_of_f64_bits};
use crate::hexstr::{hex_decode, spec_hex_decode};
use crate::json::{
    json_channel_of, json_extract, json_line_parses, json_payload_of, json_quality_of,
    json_strength_bits_of,
};
use crate::tap::{spec_fields_bytes, spec_header_bytes, spec_header_len, TapHeader, TLV};
use vstd::prelude::*;
use vstd::slice::slice_to_vec;

verus! {

/// A wall-clock instant, as seconds and nanoseconds since the Unix epoch.
#[derive(Clone, Copy, Debug, PartialEq, Eq, Structural)]
pub struct Timestamp {
    pub secs: u64,
    pub nanos: u32,
}

/// Why one line of device output was refused.
#[derive(Clone, Copy, Debug, PartialEq, Eq, Structural)]
pub enum ParseError {
    /// The line is not one well-formed structured-text record.
    MalformedRecord,
    /// The quality indicator does not fit 8 bits.
    LqiOutOfRange,
    /// The channel number does not fit 8 bits.
    ChannelOutOfRange,
    /// The record carries no payload field.
    PayloadMissing,
    /// The payload is not a hex string of even length.
    PayloadNotHex,
}

/// One line of device output, decoded: capture timestamp, link quality,
/// signal strength, channel, raw payload.
#[derive(Clone, Debug)]
pub struct ZigbeePacket {
    pub timestamp: Timestamp,
    pub lqi: u8,
    /// Received signal strength in dBm, as the f32 bit pattern the metadata
    /// encoding stores.
    pub rssi_bits: u32,
    pub channel: u8,
    pub payload: Vec<u8>,
}

/// What the four extracted record fields decode to: the quality indicator,
/// signal-strength bits, channel and payload bytes, or the first error in
/// the order the fields are read. A missing numeric field defaults to zero;
/// a missing payload, a payload that is not even-length hex, and a quality
/// or channel value above 8 bits are errors.
pub open spec fn spec_from_fields(
    quality: Option<u64>,
    strength_bits: Option<u32>,
    channel: Option<u64>,
    payload_hex: Option<Seq<char>>,
) -> Result<(u8, u32, u8, Seq<u8>), ParseError> {
    let q = match quality {
        Option::Some(v) => v,
        Option::None => 0,
    };
    let rb = match strength_bits {
        Option::Some(v) => v,
        Option::None => 0,
    };
    let c = match channel {
        Option::Some(v) => v,
        Option::None => 0,
    };
    if q > 255 {
        Result::Err(ParseError::LqiOutOfRange)
    } else if c > 255 {
        Result::Err(ParseError::ChannelOutOfRange)
    } else {
        match payload_hex {
            Option::None => Result::Err(ParseError::PayloadMissing),
            Option::Some(h) => match spec_hex_decode(h) {
                Option::None => Result::Err(ParseError::PayloadNotHex),
                Option::Some(bytes) => Result::Ok((q as u8, rb, c as u8, bytes)),
            },
        }
    }
}

/// The three metadata fields every assembled record carries, in order:
/// signal strength, link quality, channel assignment on page 0.
pub open spec fn assembled_fields(p: &ZigbeePacket) -> Seq<TLV> {
    seq![
        TLV::RSS(p.rssi_bits),
        TLV::LQI(p.lqi),
        TLV::ChannelAssignment(p.channel as u16, 0u8),
    ]
}

/// The exact buffer of an assembled capture record: the metadata header,
/// then the raw payload.
pub open spec fn spec_capture_data(p: &ZigbeePacket) -> Seq<u8> {
    spec_header_bytes(assembled_fields(p)) + p.payload@
}

/// Why assembling a capture record can fail: the buffer does not fit the
/// 32-bit length a capture record declares.
#[derive(Clone, Copy, Debug, PartialEq, Eq, Structural)]
pub enum AssembleError {
    PacketTooLong,
}

/// The unit handed to the output sink: a capture timestamp and the buffer of
/// header bytes followed by raw payload bytes.
#[derive(Clone, Debug)]
pub struct CaptureRecord {
    pub timestamp: Timestamp,
    /// The declared record length; always equal to `data.len()`.
    pub orig_len: u32,
    pub data: Vec<u8>,
}

impl ZigbeePacket {
    pub fn new(timestamp: Timestamp, lqi: u8, rssi_bits: u32, channel: u8, payload: &[u8]) -> (r:
        Self)
        ensures
            r.timestamp == timestamp,
            r.lqi == lqi,
            r.rssi_bits == rssi_bits,
            r.channel == channel,
            r.payload@ == payload@,
    {
        Self { timestamp, lqi, rssi_bits, channel, payload: slice_to_vec(payload) }
    }

    /// Decodes the four extracted record fields, with `spec_from_fields` as
    /// the exact contract.
    pub fn from_fields(
        timestamp: Timestamp,
        quality: Option<u64>,
        strength_bits: Option<u32>,
        channel: Option<u64>,
        payload_hex: Option<&str>,
    ) -> (r: Result<Self, ParseError>)
        ensures
            ({
                let hexchars = match payload_hex {
                    Option::Some(h) => Option::Some(h@),
                    Option::None => Option::None,
                };
                match spec_from_fields(quality, strength_bits, channel, hexchars) {
                    Result::Ok(f) => r matches Ok(p) && p.timestamp == timestamp && p.lqi == f.0
                        && p.rssi_bits == f.1 && p.channel == f.2 && p.payload@ == f.3,
                    Result::Err(e) => r == Err::<ZigbeePacket, ParseError>(e),
                }
            }),
    {
        let q: u64 = match quality {
            Some(v) => v,
            None => 0,
        };
        let rb: u32 = match strength_bits {
            Some(v) => v,
            None => 0,
        };
        let c: u64 = match channel {
            Some(v) => v,
            None => 0,
        };
        if q > 255 {
            return Err(ParseError::LqiOutOfRange);
        }
        if c > 255 {
            return Err(ParseError::ChannelOutOfRange);
        }
        let hexs = match payload_hex {
            Some(h) => h,
            None => {
                return Err(ParseError::PayloadMissing);
            },
        };
        let payload = match hex_decode(hexs) {
            Some(v) => v,
            None => {
                return Err(ParseError::PayloadNotHex);
            },
        };
        Ok(ZigbeePacket { timestamp, lqi: q as u8, rssi_bits: rb, channel: c as u8, payload })
    }

    /// Decodes one line of device output, stamped with the given capture
    /// time. A line the JSON parser refuses is exactly the malformed-record
    /// error; a line it accepts decodes to exactly `spec_from_fields` of the
    /// line's named field values, with the signal strength narrowed to the
    /// single precision the metadata format stores.
    pub fn from_json(line: &str, timestamp: Timestamp) -> (r: Result<Self, ParseError>)
        ensures
            !json_line_parses(line@) ==> r == Err::<ZigbeePacket, ParseError>(
                ParseError::MalformedRecord,
            ),
            json_line_parses(line@) ==> ({
                let strength = match json_strength_bits_of(line@) {
                    Option::Some(b) => Option::Some(spec_f32_bits_of_f64_bits(b)),
                    Option::None => Option::None,
                };
                match spec_from_fields(
                    json_quality_of(line@),
                    strength,
                    json_channel_of(line@),
                    json_payload_of(line@),
                ) {
                    Result::Ok(f) => r matches Ok(p) && p.timestamp == timestamp && p.lqi == f.0
                        && p.rssi_bits == f.1 && p.channel == f.2 && p.payload@ == f.3,
                    Result::Err(e) => r == Err::<ZigbeePacket, ParseError>(e),
                }
            }),
    {
        let raw = match json_extract(line) {
            Some(raw) => raw,
            None => {
                return Err(ParseError::MalformedRecord);
            },
        };
        let strength_bits = match raw.strength_bits {
            Some(b) => Some(f32_bits_of_f64_bits(b)),
            None => None,
        };
        let payload_hex = match &raw.payload_hex {
            Some(s) => Some(s.as_str()),
            None => None,
        };
        Self::from_fields(timestamp, raw.quality, strength_bits, raw.channel, payload_hex)
    }

    /// Assembles the capture record: a metadata header of exactly the three
    /// `assembled_fields`, then the raw payload, stamped with the report's
    /// capture time. Fails exactly when the buffer outgrows the 32-bit
    /// record length.
    pub fn as_pcap_packet(&self) -> (r: Result<CaptureRecord, AssembleError>)
        ensures
            spec_capture_data(self).len() <= u32::MAX ==> (r matches Ok(rec) && rec.timestamp
                == self.timestamp && rec.data@ == spec_capture_data(self) && rec.orig_len
                == rec.data@.len()),
            spec_capture_data(self).len() > u32::MAX ==> r == Err::<CaptureRecord, AssembleError>(
                AssembleError::PacketTooLong,
            ),
    {
        let mut tlvs: Vec<TLV> = Vec::new();
        tlvs.push(TLV::RSS(self.rssi_bits));
        tlvs.push(TLV::LQI(self.lqi));
        tlvs.push(TLV::ChannelAssignment(self.channel as u16, 0));
        proof {
            let fs = assembled_fields(self);
            assert(tlvs@ =~= fs);
            assert(fs.drop_last() =~= seq![TLV::RSS(self.rssi_bits), TLV::LQI(self.lqi)]);
            assert(fs.drop_last().drop_last() =~= seq![TLV::RSS(self.rssi_bits)]);
            assert(fs.drop_last().drop_last().drop_last() =~= Seq::<TLV>::empty());
            assert(spec_fields_bytes(Seq::<TLV>::empty()).len() == 0);
            assert(spec_fields_bytes(fs.drop_last().drop_last()).len() == 8);
            assert(spec_fields_bytes(fs.drop_last()).len() == 16);
            assert(spec_fields_bytes(fs).len() == 24);
            assert(spec_header_len(fs) == 28);
        }
        let header = TapHeader::new(tlvs);
        let mut data = match header.as_bytes() {
            Ok(b) => b,
            Err(_) => {
                // unreachable: this header is 28 bytes long
                return Err(AssembleError::PacketTooLong);
            },
        };
        let mut payload_copy = slice_to_vec(self.payload.as_slice());
        data.append(&mut payload_copy);
        assert(data@ =~= spec_capture_data(self));
        if data.len() > u32::MAX as usize {
            return Err(AssembleError::PacketTooLong);
        }
        let orig_len: u32 = data.len() as u32;
        Ok(CaptureRecord { timestamp: self.timestamp, orig_len, data })
    }
}

} // verus!
