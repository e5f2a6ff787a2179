//! Placement of the divider band in pixel space.
//!
//! The host hands the divider position over as the bit pattern of an IEEE 754
//! single-precision value in `[0, 1]`. This module decodes that pattern with
//! exact integer arithmetic — no floating point is ever evaluated here — and
//! classifies every output column as left image, divider band, or right
//! image, mirroring what the fragment stage computes on the GPU.

use vstd::prelude::*;
use vstd::arithmetic::power2::{
    pow2, lemma_pow2_adds, lemma_pow2_pos, lemma_pow2_strictly_increases, lemma2_to64,
};
use vstd::arithmetic::div_mod::{
    lemma_basic_div, lemma_div_denominator, lemma_div_is_ordered, lemma_div_multiples_vanish,
    lemma_div_pos_is_pos,
};
use vstd::arithmetic::mul::{
    lemma_mul_inequality, lemma_mul_is_associative, lemma_mul_is_commutative,
    lemma_mul_nonnegative, lemma_mul_upper_bound,
};
use vstd::bits::lemma_u64_shr_is_div;

verus! {

/// The source a rendered output column draws from.
#[derive(Clone, Copy, Debug, PartialEq, Eq, Structural)]
pub enum FragmentSource {
    /// Left of the band: the first input image.
    Left,
    /// Inside the band: the divider color.
    Divider,
    /// Right of the band: the second input image.
    Right,
}

/// The bit pattern of the single-precision value one. A pattern is a valid
/// divider position exactly when it is at most this: those patterns are the
/// encodings of the values in `[0, 1]`, and nothing else (negative values,
/// values above one, infinities and NaNs all have larger patterns).
pub const POSITION_ONE_BITS: u32 = 0x3f80_0000;

/// The exponent field of a single-precision bit pattern.
pub open spec fn f32_exp_field(b: u32) -> u32 {
    (b >> 23) & 0xff
}

/// The mantissa field of a single-precision bit pattern.
pub open spec fn f32_mant_field(b: u32) -> u32 {
    b & 0x7f_ffff
}

/// The real value encoded by the nonnegative finite single `b`, scaled by
/// 2^149 so that it is an integer: a subnormal `m * 2^-149` becomes `m`, and
/// a normal `(2^23 + m) * 2^(e - 150)` becomes `(2^23 + m) * 2^(e - 1)`.
pub open spec fn f32_scaled(b: u32) -> int {
    if f32_exp_field(b) == 0 {
        f32_mant_field(b) as int
    } else {
        (0x80_0000 + f32_mant_field(b)) * pow2((f32_exp_field(b) - 1) as nat)
    }
}

/// `b` encodes a divider position: a value in `[0, 1]`.
pub open spec fn valid_position_bits(b: u32) -> bool {
    b <= POSITION_ONE_BITS
}

/// The divider's center column: `position * extent_w`, rounded toward zero.
pub open spec fn spec_divider_center(b: u32, extent_w: u32) -> int {
    (f32_scaled(b) * extent_w) / pow2(149) as int
}

/// Where column `x` falls relative to a band of total width `width_px`
/// centered on column `center`: the band covers
/// `[center - width_px / 2, center + width_px / 2]`.
pub open spec fn spec_classify(x: int, center: int, width_px: int) -> FragmentSource {
    if x < center - width_px / 2 {
        FragmentSource::Left
    } else if x > center + width_px / 2 {
        FragmentSource::Right
    } else {
        FragmentSource::Divider
    }
}

/// Classification of column `x` straight from the request values: the
/// position bit pattern and the width in device pixels.
pub open spec fn spec_classify_bits(x: int, pos_bits: u32, width_px: u8, extent_w: u32) -> FragmentSource {
    spec_classify(x, spec_divider_center(pos_bits, extent_w), width_px as int)
}

/// The center column never leaves the output: it lies in `[0, extent_w]`.
pub proof fn lemma_center_in_extent(b: u32, extent_w: u32)
    requires
        valid_position_bits(b),
    ensures
        0 <= spec_divider_center(b, extent_w) <= extent_w,
{
    let e = f32_exp_field(b);
    let m = f32_mant_field(b);
    let scaled = f32_scaled(b);
    let w = extent_w as int;
    let p149 = pow2(149) as int;
    lemma_pow2_pos(149);
    assert(b <= 0x3f80_0000 ==> ((b >> 23) & 0xff) <= 127) by (bit_vector);
    assert(b <= 0x3f80_0000 && ((b >> 23) & 0xff) == 127 ==> (b & 0x7f_ffff) == 0)
        by (bit_vector);
    assert((b & 0x7f_ffff) < 0x80_0000) by (bit_vector);
    lemma2_to64();
    assert(scaled <= p149) by {
        if e == 0 {
            lemma_pow2_strictly_increases(23, 149);
        } else if e < 127 {
            let p_e = pow2((e - 1) as nat) as int;
            let p125 = pow2(125) as int;
            let sig = 0x80_0000 + m as int;
            if e < 126 {
                lemma_pow2_strictly_increases((e - 1) as nat, 125);
            }
            lemma_pow2_pos(125);
            lemma_pow2_pos((e - 1) as nat);
            lemma_mul_inequality(p_e, p125, sig);
            lemma_mul_is_commutative(p_e, sig);
            lemma_mul_is_commutative(p125, sig);
            vstd::arithmetic::mul::lemma_mul_strict_inequality(sig, 0x100_0000, p125);
            lemma_pow2_adds(24, 125);
            assert(0x100_0000 == pow2(24));
        } else {
            assert(e == 127 && m == 0);
            assert(scaled == 0x80_0000 * pow2(126) as int);
            lemma_pow2_adds(23, 126);
            assert(0x80_0000 == pow2(23));
        }
    }
    assert(scaled >= 0) by {
        if e != 0 {
            lemma_pow2_pos((e - 1) as nat);
            lemma_mul_nonnegative(0x80_0000 + m as int, pow2((e - 1) as nat) as int);
        }
    }
    lemma_mul_nonnegative(scaled, w);
    lemma_div_pos_is_pos(scaled * w, p149);
    lemma_mul_inequality(scaled, p149, w);
    lemma_div_is_ordered(scaled * w, p149 * w, p149);
    lemma_div_multiples_vanish(w, p149);
}

/// Rewrites the center quotient so that the power of two from the exponent
/// cancels: for a normal pattern the division by 2^149 collapses to a single
/// right shift of the significand-times-width product.
proof fn lemma_scale_shift(sig: int, w: int, e: nat)
    requires
        0 <= sig,
        0 <= w,
        1 <= e <= 127,
    ensures
        (sig * pow2((e - 1) as nat) as int * w) / pow2(149) as int == (sig * w) / pow2(
            (150 - e) as nat,
        ) as int,
{
    let p1 = pow2((e - 1) as nat) as int;
    let ps = pow2((150 - e) as nat) as int;
    lemma_pow2_pos((e - 1) as nat);
    lemma_pow2_pos((150 - e) as nat);
    lemma_pow2_adds((150 - e) as nat, (e - 1) as nat);
    assert(ps * p1 == pow2(149) as int);
    assert(sig * p1 * w == (sig * w) * p1) by {
        lemma_mul_is_commutative(sig, p1);
        lemma_mul_is_associative(p1, sig, w);
        lemma_mul_is_commutative(p1, sig * w);
    }
    lemma_mul_nonnegative(sig, w);
    lemma_mul_nonnegative(sig * w, p1);
    lemma_div_denominator((sig * w) * p1, p1, ps);
    assert(p1 * ps == ps * p1) by {
        lemma_mul_is_commutative(p1, ps);
    }
    lemma_div_multiples_vanish(sig * w, p1);
    assert(p1 * (sig * w) == (sig * w) * p1) by {
        lemma_mul_is_commutative(p1, sig * w);
    }
}

/// A product of a value below 2^24 and a value below 2^32 stays below 2^56.
proof fn lemma_small_product(a: int, b: int, bound: nat)
    requires
        0 <= a < pow2(24),
        0 <= b < pow2(32),
        56 <= bound,
    ensures
        a * b < pow2(bound),
{
    let p24 = pow2(24) as int;
    let p32 = pow2(32) as int;
    lemma_pow2_pos(24);
    lemma_pow2_pos(32);
    lemma_pow2_pos(bound);
    if b == 0 {
        vstd::arithmetic::mul::lemma_mul_basics(a);
    } else {
        vstd::arithmetic::mul::lemma_mul_strict_inequality(a, p24, b);
        lemma_mul_inequality(b, p32, p24);
        lemma_mul_is_commutative(p24, b);
        lemma_mul_is_commutative(p32, p24);
    }
    lemma_pow2_adds(24, 32);
    if bound > 56 {
        lemma_pow2_strictly_increases(56, bound);
    }
}

/// Computes the divider's center column for the output width `extent_w`,
/// exactly as `spec_divider_center` defines it, by integer arithmetic on the
/// position's bit pattern.
pub fn divider_center_px(pos_bits: u32, extent_w: u32) -> (r: u32)
    requires
        valid_position_bits(pos_bits),
    ensures
        r as int == spec_divider_center(pos_bits, extent_w),
        r <= extent_w,
{
    proof {
        lemma_center_in_extent(pos_bits, extent_w);
    }
    let e: u32 = (pos_bits >> 23) & 0xff;
    let m: u32 = pos_bits & 0x7f_ffff;
    proof {
        assert((pos_bits & 0x7f_ffff) < 0x80_0000) by (bit_vector);
        assert(pos_bits <= 0x3f80_0000 ==> ((pos_bits >> 23) & 0xff) <= 127) by (bit_vector);
        lemma2_to64();
    }
    if e == 0 {
        proof {
            lemma_small_product(m as int, extent_w as int, 149);
            lemma_mul_nonnegative(m as int, extent_w as int);
            lemma_pow2_pos(149);
            lemma_basic_div(m as int * extent_w as int, pow2(149) as int);
        }
        0
    } else {
        let sig: u32 = 0x80_0000 + m;
        proof {
            lemma_mul_upper_bound(sig as int, 0xff_ffff, extent_w as int, 0xffff_ffff);
        }
        let prod: u64 = (sig as u64) * (extent_w as u64);
        let shift: u32 = 150 - e;
        proof {
            lemma_scale_shift(sig as int, extent_w as int, e as nat);
        }
        if shift >= 64 {
            proof {
                lemma_small_product(sig as int, extent_w as int, shift as nat);
                lemma_mul_nonnegative(sig as int, extent_w as int);
                lemma_pow2_pos(shift as nat);
                lemma_basic_div(sig as int * extent_w as int, pow2(shift as nat) as int);
            }
            0
        } else {
            proof {
                lemma_u64_shr_is_div(prod, shift as u64);
            }
            let r64: u64 = prod >> shift;
            r64 as u32
        }
    }
}

/// Classifies output column `x`: left of the divider band the first image
/// shows, right of it the second, and inside it the divider color.
pub fn classify_fragment(x: u32, pos_bits: u32, width_px: u8, extent_w: u32) -> (r: FragmentSource)
    requires
        valid_position_bits(pos_bits),
    ensures
        r == spec_classify_bits(x as int, pos_bits, width_px, extent_w),
{
    let center: u32 = divider_center_px(pos_bits, extent_w);
    let half: u32 = (width_px / 2) as u32;
    if (x as u64) + (half as u64) < center as u64 {
        FragmentSource::Left
    } else if (x as u64) > (center as u64) + (half as u64) {
        FragmentSource::Right
    } else {
        FragmentSource::Divider
    }
}

/// The classification law: for every valid divider position and every width,
/// a column strictly left of the band draws the first image, a column
/// strictly right of it the second, and the band — the closed interval of
/// half a width on either side of the center — the divider color. The three
/// cases are mutually exclusive and cover every column.
pub proof fn lemma_fragment_classification(x: int, pos_bits: u32, width_px: u8, extent_w: u32)
    requires
        valid_position_bits(pos_bits),
    ensures
        ({
            let center = spec_divider_center(pos_bits, extent_w);
            let half = width_px as int / 2;
            let r = spec_classify_bits(x, pos_bits, width_px, extent_w);
            &&& (r == FragmentSource::Left <==> x < center - half)
            &&& (r == FragmentSource::Right <==> x > center + half)
            &&& (r == FragmentSource::Divider <==> center - half <= x <= center + half)
        }),
{
}

} // verus!
