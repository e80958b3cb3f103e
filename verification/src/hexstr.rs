//! What a hexadecimal payload string stands for, and the trusted decoder.

use vstd::prelude::*;

verus! {

/// The value of one hex digit, upper or lower case; `None` for any other
/// character.
pub open spec fn hex_val(c: char) -> Option<u8> {
    if '0' <= c && c <= '9' {
        Option::Some((c as u32 - '0' as u32) as u8)
    } else if 'A' <= c && c <= 'F' {
        Option::Some((c as u32 - 'A' as u32 + 10) as u8)
    } else if 'a' <= c && c <= 'f' {
        Option::Some((c as u32 - 'a' as u32 + 10) as u8)
    } else {
        Option::None
    }
}

/// The bytes a hex string stands for: one byte per digit pair, high digit
/// first; no bytes at all for a string of odd length or with a character
/// that is no hex digit.
pub open spec fn spec_hex_decode(s: Seq<char>) -> Option<Seq<u8>>
    decreases s.len(),
{
    if s.len() % 2 != 0 {
        Option::None
    } else if s.len() == 0 {
        Option::Some(Seq::empty())
    } else {
        match (hex_val(s[0]), hex_val(s[1])) {
            (Option::Some(hi), Option::Some(lo)) => match spec_hex_decode(s.skip(2)) {
                Option::Some(rest) => Option::Some(seq![(hi * 16 + lo) as u8] + rest),
                Option::None => Option::None,
            },
            _ => Option::None,
        }
    }
}

/// Relies on hex::decode: pairs of hex digits, either case, become bytes;
/// a string of odd length or with a character that is no hex digit is
/// refused. hex::decode reads the string's UTF-8 bytes, but on every input
/// that either side accepts every character is an ASCII hex digit, so the
/// byte and character views agree.
#[verifier::external_body]
pub(crate) fn hex_decode(s: &str) -> (r: Option<Vec<u8>>)
    ensures
        r matches Some(v) ==> spec_hex_decode(s@) == Option::Some(v@),
        r is None ==> spec_hex_decode(s@) is None,
{
    hex::decode(s).ok()
}

} // verus!
