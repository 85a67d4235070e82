//! Integer arithmetic shared by the input pipeline: truncating division,
//! clamping and saturation, each tied to a mathematical definition.

use vstd::prelude::*;

verus! {

/// Quotient of `a` by `b > 0`, rounded toward zero.
pub open spec fn trunc_div(a: int, b: int) -> int {
    if a >= 0 {
        a / b
    } else {
        -((-a) / b)
    }
}

/// The value of `lo..=hi` that is nearest to `v`.
pub open spec fn clamp(v: int, lo: int, hi: int) -> int {
    if v < lo {
        lo
    } else if v > hi {
        hi
    } else {
        v
    }
}

/// `v` limited to the range of `i8`.
pub open spec fn clamp_i8(v: int) -> int {
    clamp(v, -128, 127)
}

/// `v` limited to the range of `i16`.
pub open spec fn clamp_i16(v: int) -> int {
    clamp(v, -32768, 32767)
}

/// `v` limited to the range of `i32`.
pub open spec fn clamp_i32(v: int) -> int {
    clamp(v, i32::MIN as int, i32::MAX as int)
}

/// Whether `v` is a value of `i16`.
pub open spec fn fits_i16(v: int) -> bool {
    -32768 <= v <= 32767
}

/// Whether `v` is a value of `i32`.
pub open spec fn fits_i32(v: int) -> bool {
    i32::MIN <= v <= i32::MAX
}

/// Distance of `v` from zero.
pub open spec fn magnitude(v: int) -> int {
    if v < 0 {
        -v
    } else {
        v
    }
}

/// Milliseconds from `earlier` to `later` on a clock that wraps around at 2^32.
pub open spec fn wrapping_elapsed(later: u32, earlier: u32) -> int {
    if later >= earlier {
        later - earlier
    } else {
        later - earlier + 0x1_0000_0000
    }
}

/// A remainder of truncating division is smaller than the divisor and has the
/// sign of the dividend.
pub proof fn lemma_trunc_div(a: int, b: int)
    requires
        b > 0,
    ensures
        magnitude(a - trunc_div(a, b) * b) < b,
        a >= 0 ==> 0 <= a - trunc_div(a, b) * b <= a,
        a <= 0 ==> a <= a - trunc_div(a, b) * b <= 0,
        magnitude(trunc_div(a, b)) <= magnitude(a),
        a >= 0 ==> trunc_div(a, b) >= 0,
        a <= 0 ==> trunc_div(a, b) <= 0,
{
    if a >= 0 {
        assert(a / b * b <= a && a - a / b * b < b && 0 <= a / b <= a) by (nonlinear_arith)
            requires
                a >= 0,
                b > 0,
        ;
    } else {
        let n = -a;
        assert(n / b * b <= n && n - n / b * b < b && 0 <= n / b <= n) by (nonlinear_arith)
            requires
                n >= 0,
                b > 0,
        ;
        assert((-(n / b)) * b == -(n / b * b)) by (nonlinear_arith);
    }
}

/// Narrows `v` to `i8`, replacing a value outside the range by its nearest end.
pub fn narrow_i16_to_i8(v: i16) -> (r: i8)
    ensures
        r == clamp_i8(v as int),
{
    if v < -128 {
        -128
    } else if v > 127 {
        127
    } else {
        v as i8
    }
}

/// Narrows `v` to `i8`, replacing a value outside the range by its nearest end.
pub fn narrow_i32_to_i8(v: i32) -> (r: i8)
    ensures
        r == clamp_i8(v as int),
{
    if v < -128 {
        -128
    } else if v > 127 {
        127
    } else {
        v as i8
    }
}

/// Narrows `v` to `i16`, replacing a value outside the range by its nearest end.
pub fn narrow_i32_to_i16(v: i32) -> (r: i16)
    ensures
        r == clamp_i16(v as int),
{
    if v < -32768 {
        -32768
    } else if v > 32767 {
        32767
    } else {
        v as i16
    }
}

/// Sum of `a` and `b`, limited to the range of `i16`.
pub fn sat_add_i16(a: i16, b: i16) -> (r: i16)
    ensures
        r == clamp_i16(a + b),
{
    narrow_i32_to_i16(a as i32 + b as i32)
}

/// Product of `a` and `b`, limited to the range of `i16`.
pub fn sat_mul_i16(a: i16, b: i16) -> (r: i16)
    ensures
        r == clamp_i16(a * b),
{
    assert(-0x4000_0000 <= a * b <= 0x4000_0000) by (nonlinear_arith)
        requires
            -32768 <= a <= 32767,
            -32768 <= b <= 32767,
    ;
    narrow_i32_to_i16(a as i32 * b as i32)
}

/// `-a`, limited to the range of `i16`.
pub fn sat_neg_i16(a: i16) -> (r: i16)
    ensures
        r == clamp_i16(-a),
{
    if a == -32768 {
        32767
    } else {
        -a
    }
}

/// Sum of `a` and `b`, limited to the range of `i32`.
pub fn sat_add_i32(a: i32, b: i32) -> (r: i32)
    ensures
        r == clamp_i32(a + b),
{
    let sum: i64 = a as i64 + b as i64;
    if sum < i32::MIN as i64 {
        i32::MIN
    } else if sum > i32::MAX as i64 {
        i32::MAX
    } else {
        sum as i32
    }
}

/// Distance of `v` from zero.
pub fn abs_i16(v: i16) -> (r: i16)
    requires
        v > i16::MIN,
    ensures
        r == magnitude(v as int),
{
    if v < 0 {
        -v
    } else {
        v
    }
}

/// Distance of `v` from zero.
pub fn abs_i32(v: i32) -> (r: i32)
    requires
        v > i32::MIN,
    ensures
        r == magnitude(v as int),
{
    if v < 0 {
        -v
    } else {
        v
    }
}

/// Milliseconds from `earlier` to `later` on a clock that wraps around at 2^32.
pub fn elapsed_ms(later: u32, earlier: u32) -> (r: u32)
    ensures
        r == wrapping_elapsed(later, earlier),
{
    later.wrapping_sub(earlier)
}

/// A limited value is in the range, is the value itself where that is in the range, and
/// is otherwise the end of the range on the value's side.
pub proof fn law_clamp_is_nearest(v: int, lo: int, hi: int)
    requires
        lo <= hi,
    ensures
        lo <= clamp(v, lo, hi) <= hi,
        lo <= v <= hi ==> clamp(v, lo, hi) == v,
        v < lo ==> clamp(v, lo, hi) == lo,
        v > hi ==> clamp(v, lo, hi) == hi,
        -128 <= clamp_i8(v) <= 127,
        -128 <= v <= 127 ==> clamp_i8(v) == v,
        v > 127 ==> clamp_i8(v) == 127,
        v < -128 ==> clamp_i8(v) == -128,
        -0x8000 <= v <= 0x7fff ==> clamp_i16(v) == v,
        v > 0x7fff ==> clamp_i16(v) == 0x7fff,
        v < -0x8000 ==> clamp_i16(v) == -0x8000,
        -0x8000_0000 <= v <= 0x7fff_ffff ==> clamp_i32(v) == v,
        v > 0x7fff_ffff ==> clamp_i32(v) == 0x7fff_ffff,
        v < -0x8000_0000 ==> clamp_i32(v) == -0x8000_0000,
{
}

/// Truncating division rounds toward zero, and opposite values have opposite quotients.
pub proof fn law_division_rounds_toward_zero(a: int, b: int)
    requires
        b > 0,
    ensures
        a >= 0 ==> trunc_div(a, b) * b <= a < trunc_div(a, b) * b + b,
        a <= 0 ==> trunc_div(a, b) * b - b < a <= trunc_div(a, b) * b,
        trunc_div(-a, b) == -trunc_div(a, b),
{
    lemma_trunc_div(a, b);
    if a == 0 {
        assert(0int / b == 0) by (nonlinear_arith)
            requires
                b > 0,
        ;
    }
}

/// The distance of a value from zero is not negative and is the value or its opposite.
pub proof fn law_magnitude_is_a_distance(v: int)
    ensures
        magnitude(v) >= 0,
        magnitude(v) == v || magnitude(v) == -v,
        magnitude(-v) == magnitude(v),
{
}

/// A clock that starts at `earlier` shows `later` after the elapsed time, which is less
/// than one turn of the clock.
pub proof fn law_elapsed_time_leads_to_now(later: u32, earlier: u32)
    ensures
        0 <= wrapping_elapsed(later, earlier) < 0x1_0000_0000,
        (earlier + wrapping_elapsed(later, earlier)) % 0x1_0000_0000 == later,
{
}

} // verus!
