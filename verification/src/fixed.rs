//! The fixed-point arithmetic of the filter, stated over the integers: wide
//! products with their lowest bits dropped, and the reduction of a result to
//! the 32 bits that a lowpass signal is kept in.

use vstd::prelude::*;

verus! {

/// The value of the low 32 bits of `x`, read as a signed number.
pub open spec fn wrap_i32(x: int) -> int {
    (x + 0x8000_0000) % 0x1_0000_0000 - 0x8000_0000
}

/// Distance from zero.
pub open spec fn magnitude(x: int) -> int {
    if x < 0 {
        -x
    } else {
        x
    }
}

/// Moving by the fraction `g / 2^16` of a distance `e`, rounded down, goes
/// towards the target and not past it; with `g` at unity it arrives, and it
/// stands still only if `g * e` is a non-negative value below `2^16`.
pub proof fn lemma_move_towards(g: int, e: int)
    by (nonlinear_arith)
    requires
        0 <= g <= 0x1_0000,
    ensures
        e >= 0 ==> 0 <= g * e / 0x1_0000 <= e,
        e <= 0 ==> e <= g * e / 0x1_0000 <= 0,
        g == 0x1_0000 ==> g * e / 0x1_0000 == e,
        g * e / 0x1_0000 == 0 <==> 0 <= g * e < 0x1_0000,
{
}

/// Keeps the low 32 bits of `x`.
pub(crate) fn narrow(x: i128) -> (r: i32)
    ensures
        r == wrap_i32(x as int),
{
    let r: i32 = #[verifier::truncate] (x as i32);
    assert(x as i32 == (x + 0x8000_0000) % 0x1_0000_0000 - 0x8000_0000) by (bit_vector);
    r
}

/// `|a - b|`, over the integers.
pub(crate) fn distance(a: i32, b: i32) -> (r: i64)
    ensures
        r == magnitude(a - b),
        0 <= r <= 0xffff_ffff,
{
    let d: i64 = a as i64 - b as i64;
    if d < 0 {
        -d
    } else {
        d
    }
}

/// The product of a Q16 value and a distance, with its 8 lowest fractional
/// bits dropped.
pub(crate) fn mul_drop8(a: i32, b: i64) -> (r: i64)
    requires
        0 <= b <= 0xffff_ffff,
    ensures
        r == a * b / 0x100,
        -0x80_0000_0000_0000 <= r <= 0x80_0000_0000_0000,
{
    assert(-0x8000_0000_0000_0000 < a * b < 0x8000_0000_0000_0000) by (nonlinear_arith)
        requires
            -0x8000_0000 <= a < 0x8000_0000,
            0 <= b <= 0xffff_ffff,
    ;
    let product: i64 = a as i64 * b;
    assert(product >> 8u8 == product / 0x100) by (bit_vector);
    assert(-0x80_0000_0000_0000 <= product / 0x100 <= 0x80_0000_0000_0000);
    product >> 8u8
}

/// The fraction `g / 2^16` of `e`, rounded down, for a coefficient `g` that
/// is at most unity and as far below zero as a raised coefficient can be.
pub(crate) fn fraction_of(g: i64, e: i64) -> (r: i128)
    requires
        -0x100_0000_0000_0000 <= g <= 0x1_0000,
        -0x200_0000_0000 <= e <= 0x200_0000_0000,
    ensures
        r == g * e / 0x1_0000,
        -0x2_0000_0000_0000_0000_0000 <= r <= 0x2_0000_0000_0000_0000_0000,
{
    assert(-0x2_0000_0000_0000_0000_0000_0000 <= g * e <= 0x2_0000_0000_0000_0000_0000_0000)
        by (nonlinear_arith)
        requires
            -0x100_0000_0000_0000 <= g <= 0x1_0000,
            -0x200_0000_0000 <= e <= 0x200_0000_0000,
    ;
    let product: i128 = g as i128 * e as i128;
    assert(product >> 16u8 == product / 0x1_0000) by (bit_vector);
    product >> 16u8
}

} // verus!
