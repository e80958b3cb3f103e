//! Narrowing an IEEE 754 binary64 bit pattern to binary32.
//!
//! The device reports signal strength at double precision, while the
//! metadata format stores it at single precision. Floating-point values
//! cross this library only as their bit patterns, so the narrowing — round
//! to nearest, ties to even, overflowing to an infinity — is done here on
//! the bits themselves.

use vstd::prelude::*;

verus! {

/// The binary32 bit pattern nearest to the value a binary64 bit pattern
/// stands for: round to nearest, ties to even; magnitudes beyond the
/// binary32 range become an infinity, and a NaN becomes a quiet NaN.
pub open spec fn spec_f32_bits_of_f64_bits(b: u64) -> u32 {
    let sign: u32 = if b >= 0x8000_0000_0000_0000 {
        0x8000_0000u32
    } else {
        0u32
    };
    let exp: u64 = (b >> 52) & 0x7FF;
    let frac: u64 = b & 0xF_FFFF_FFFF_FFFF;
    if exp == 0x7FF {
        if frac != 0 {
            sign | 0x7FC0_0000
        } else {
            sign | 0x7F80_0000
        }
    } else if exp == 0 {
        // a binary64 subnormal is far below half the least binary32
        // subnormal, so it rounds to a signed zero
        sign
    } else if exp >= 1151 {
        // the magnitude is at least 2^128
        sign | 0x7F80_0000
    } else {
        let sig: u64 = 0x10_0000_0000_0000 | frac;
        let rshift: u64 = if exp >= 897 {
            29
        } else {
            (926 - exp) as u64
        };
        let e32: u32 = if exp >= 897 {
            (exp - 896) as u32
        } else {
            0
        };
        if rshift > 53 {
            // below half the least binary32 subnormal
            sign
        } else {
            let keep: u64 = sig >> rshift;
            let rem: u64 = sig & (((1u64 << rshift) - 1) as u64);
            let half: u64 = 1u64 << ((rshift - 1) as u64);
            let up: bool = rem > half || (rem == half && keep & 1 == 1);
            let keep2: u64 = if up {
                (keep + 1) as u64
            } else {
                keep
            };
            let keep3: u64 = if keep2 == 0x100_0000 {
                0x80_0000
            } else {
                keep2
            };
            let e33: u32 = if keep2 == 0x100_0000 {
                (e32 + 1) as u32
            } else {
                e32
            };
            if e33 >= 255 {
                sign | 0x7F80_0000
            } else if e33 == 0 {
                sign | (keep3 as u32)
            } else {
                sign | (((((e33 - 1) as u32) << 23u32) + (keep3 as u32)) as u32)
            }
        }
    }
}

/// Narrows a binary64 bit pattern to the binary32 bit pattern of the same
/// value: round to nearest, ties to even; overflow gives an infinity.
pub fn f32_bits_of_f64_bits(b: u64) -> (r: u32)
    ensures
        r == spec_f32_bits_of_f64_bits(b),
{
    let sign: u32 = if b >= 0x8000_0000_0000_0000 {
        0x8000_0000
    } else {
        0
    };
    let exp: u64 = (b >> 52) & 0x7FF;
    let frac: u64 = b & 0xF_FFFF_FFFF_FFFF;
    proof {
        assert((b >> 52) & 0x7FF <= 0x7FF) by (bit_vector);
        assert(b & 0xF_FFFF_FFFF_FFFF <= 0xF_FFFF_FFFF_FFFF) by (bit_vector);
    }
    if exp == 0x7FF {
        if frac != 0 {
            return sign | 0x7FC0_0000;
        } else {
            return sign | 0x7F80_0000;
        }
    }
    if exp == 0 {
        return sign;
    }
    if exp >= 1151 {
        return sign | 0x7F80_0000;
    }
    let sig: u64 = 0x10_0000_0000_0000 | frac;
    proof {
        let fr = frac;
        assert(0x10_0000_0000_0000u64 | fr >= 0x10_0000_0000_0000 && 0x10_0000_0000_0000u64 | fr
            <= 0x1F_FFFF_FFFF_FFFF) by (bit_vector)
            requires
                fr <= 0xF_FFFF_FFFF_FFFF,
        ;
    }
    let rshift: u64 = if exp >= 897 {
        29
    } else {
        29 + (897 - exp)
    };
    let e32: u32 = if exp >= 897 {
        (exp - 896) as u32
    } else {
        0
    };
    if rshift > 53 {
        return sign;
    }
    let keep: u64 = sig >> rshift;
    proof {
        let s = sig;
        let sh = rshift;
        assert(1u64 << sh >= 1) by (bit_vector)
            requires
                sh <= 53,
        ;
        assert(s >> sh <= 0xFF_FFFF) by (bit_vector)
            requires
                s <= 0x1F_FFFF_FFFF_FFFF && 29 <= sh && sh <= 53,
        ;
        assert(sh > 29 ==> s >> sh <= 0x7F_FFFF) by (bit_vector)
            requires
                s <= 0x1F_FFFF_FFFF_FFFF && sh <= 53,
        ;
        assert(sh == 29 ==> s >> sh >= 0x80_0000) by (bit_vector)
            requires
                s >= 0x10_0000_0000_0000,
        ;
    }
    let rem: u64 = sig & ((1u64 << rshift) - 1);
    let half: u64 = 1u64 << (rshift - 1);
    let up: bool = rem > half || (rem == half && keep & 1 == 1);
    let keep2: u64 = if up {
        keep + 1
    } else {
        keep
    };
    let keep3: u64 = if keep2 == 0x100_0000 {
        0x80_0000
    } else {
        keep2
    };
    let e33: u32 = if keep2 == 0x100_0000 {
        e32 + 1
    } else {
        e32
    };
    if e33 >= 255 {
        return sign | 0x7F80_0000;
    }
    if e33 == 0 {
        sign | (keep3 as u32)
    } else {
        proof {
            let e = e33;
            assert(((e - 1) as u32) << 23u32 <= 0x7E80_0000) by (bit_vector)
                requires
                    1 <= e && e <= 254,
            ;
        }
        sign | (((e33 - 1) << 23u32) + (keep3 as u32))
    }
}

} // verus!
