//! Trusted surface of the outside JSON parser the device records come
//! through. Whether a line parses, and what its four short-keyed fields
//! hold, is a function of the line alone, so each outcome carries a name;
//! the one extraction wrapper below ties the names to the real parser, and
//! the verified record logic takes the named values from there.

use vstd::prelude::*;

verus! {

/// Whether the line is one well-formed JSON document: exactly the inputs
/// serde_json::from_str accepts.
pub uninterp spec fn json_line_parses(line: Seq<char>) -> bool;

/// The quality field of the parsed line: what serde_json's Value::get with
/// key "Q", then Value::as_u64, yields on the parsed document.
pub uninterp spec fn json_quality_of(line: Seq<char>) -> Option<u64>;

/// The signal-strength field of the parsed line, as the IEEE 754 binary64
/// bit pattern: what Value::get with key "R", then Value::as_f64, yields.
pub uninterp spec fn json_strength_bits_of(line: Seq<char>) -> Option<u64>;

/// The channel field of the parsed line: what Value::get with key "C", then
/// Value::as_u64, yields.
pub uninterp spec fn json_channel_of(line: Seq<char>) -> Option<u64>;

/// The payload field of the parsed line: what Value::get with key "S", then
/// Value::as_str, yields.
pub uninterp spec fn json_payload_of(line: Seq<char>) -> Option<Seq<char>>;

/// The four fields read out of one parsed line, still undecoded.
pub struct RawRecord {
    pub quality: Option<u64>,
    /// The binary64 bit pattern of the signal strength.
    pub strength_bits: Option<u64>,
    pub channel: Option<u64>,
    pub payload_hex: Option<String>,
}

/// Relies on serde_json: from_str parses the line as one JSON document
/// (failing on malformed JSON or trailing non-whitespace), and the Value
/// accessors get ("Q", "R", "C", "S"), as_u64, as_f64 and as_str read the
/// four fields out of it, `None` where a key is absent, the document is no
/// object, or a value has the wrong type. Each outcome is deterministic in
/// the line, which is what the names state.
#[verifier::external_body]
pub(crate) fn json_extract(line: &str) -> (r: Option<RawRecord>)
    ensures
        r is Some <==> json_line_parses(line@),
        r matches Some(raw) ==> raw.quality == json_quality_of(line@) && raw.strength_bits
            == json_strength_bits_of(line@) && raw.channel == json_channel_of(line@) && (match raw
            .payload_hex {
            Option::Some(s) => json_payload_of(line@) == Option::Some(s@),
            Option::None => json_payload_of(line@) is None,
        }),
{
    match serde_json::from_str::<serde_json::Value>(line) {
        Ok(v) => Some(RawRecord {
            quality: v.get("Q").and_then(serde_json::Value::as_u64),
            strength_bits: v.get("R").and_then(serde_json::Value::as_f64).map(|f| f.to_bits()),
            channel: v.get("C").and_then(serde_json::Value::as_u64),
            payload_hex: v.get("S").and_then(serde_json::Value::as_str).map(|s| s.to_string()),
        }),
        Err(_) => None,
    }
}

} // verus!
