//! Tangent by table lookup and linear interpolation, in Q16 fixed point.

use vstd::prelude::*;

verus! {

/// Number of table entries.
pub const TAN_LUT_LENGTH: usize = 32;

/// Number of fractional bits used in table values and table positions.
pub const TAN_LUT_FRAC_BITS: u8 = 16;

/// One in Q16.
pub const TAN_LUT_ONE: i64 = 0x1_0000;

/// `tan(i * (PI / 2) / 32)` for `i` in `0..32`, scaled by `2^16`.
pub const TAN_LUT: [i32; 32] = [
    0, 3219, 6454, 9721, 13035, 16415, 19880, 23449, 27145, 30996, 35029, 39280, 43789, 48604,
    53784, 59398, 65535, 72307, 79855, 88365, 98081, 109340, 122609, 138564, 158217, 183160,
    216043, 261634, 329471, 441807, 665398, 1334015,
];

/// The table slot that a Q16 table position falls into. The last slot is never
/// chosen, so that `tan_slot(index) + 1` is a slot too.
pub open spec fn tan_slot(index: int) -> int {
    if index / 0x1_0000 <= 30 {
        index / 0x1_0000
    } else {
        30
    }
}

/// The interpolation weight of a Q16 table position: its fractional part.
pub open spec fn tan_weight(index: int) -> int {
    index % 0x1_0000
}

/// The table position of a normalized frequency: the table spans a quarter
/// turn, `wc` in `0..2^15` half a turn, which the bilinear transform halves.
pub open spec fn tan_index(wc: int) -> int {
    wc * 2 * 32
}

/// Tangent at a Q16 table position: the two neighbouring entries are weighted,
/// added, and the sum is scaled back to Q16.
pub open spec fn tan_at_index(index: int) -> int {
    let slot = tan_slot(index);
    let weight = tan_weight(index);
    (TAN_LUT[slot] * (0x1_0000 - weight) + TAN_LUT[slot + 1] * weight) / 0x1_0000
}

/// Tangent of a normalized frequency in Q16: the tangent at its table
/// position.
pub open spec fn tan_wc(wc: int) -> int {
    tan_at_index(tan_index(wc))
}

/// The table rises strictly from entry to entry.
pub proof fn lemma_tan_lut_increasing(i: int, j: int)
    requires
        0 <= i < j < 32,
    ensures
        0 <= TAN_LUT[i] < TAN_LUT[j] <= 1334015,
{
}

/// The tangent at a table position lies between the two entries that it is
/// taken from.
pub proof fn lemma_tan_at_index_between(index: int)
    requires
        0 <= index,
    ensures
        TAN_LUT[tan_slot(index)] <= tan_at_index(index) <= TAN_LUT[tan_slot(index) + 1],
        0 <= tan_at_index(index) <= 1334015,
{
    let slot = tan_slot(index);
    let weight = tan_weight(index);
    let below = TAN_LUT[slot] as int;
    let above = TAN_LUT[slot + 1] as int;
    assert(below <= (below * (0x1_0000 - weight) + above * weight) / 0x1_0000 <= above)
        by (nonlinear_arith)
        requires
            0 <= below <= above,
            0 <= weight < 0x1_0000,
    ;
}

/// At a whole table position the tangent is the table entry.
pub proof fn lemma_tan_at_entry(slot: int)
    requires
        0 <= slot <= 30,
    ensures
        tan_at_index(slot * 0x1_0000) == TAN_LUT[slot],
        tan_wc(slot * 1024) == TAN_LUT[slot],
{
    let below = TAN_LUT[slot] as int;
    let above = TAN_LUT[slot + 1] as int;
    assert((below * 0x1_0000 + above * 0) / 0x1_0000 == below);
}

/// An entry times a weight of at most one in Q16 is at most the last entry
/// times one.
proof fn lemma_weighted_entry_fits(entry: int, weight: int)
    by (nonlinear_arith)
    requires
        0 <= entry <= 1334015,
        0 <= weight <= 0x1_0000,
    ensures
        0 <= entry * weight <= 1334015 * 0x1_0000,
{
}

/// Interpolated tangent at the Q16 table position `lut_index`, in Q16.
/// Positions past the table are read in its last interval.
pub fn tan_lut_lookup(lut_index: usize) -> (result: i64)
    ensures
        result == tan_at_index(lut_index as int),
        0 <= result <= 1334015,
{
    // Split the position into table slot and interpolation weight.
    let whole: usize = lut_index >> TAN_LUT_FRAC_BITS;
    let weight: usize = lut_index & 0xffff;
    assert(lut_index >> 16u8 == lut_index / 0x1_0000) by (bit_vector);
    assert(lut_index & 0xffff == lut_index % 0x1_0000) by (bit_vector);

    // The last slot has no right neighbour: it is never chosen.
    let slot: usize = if whole <= TAN_LUT_LENGTH - 2 {
        whole
    } else {
        TAN_LUT_LENGTH - 2
    };
    let below: i64 = TAN_LUT[slot] as i64;
    let above: i64 = TAN_LUT[slot + 1] as i64;
    let w: i64 = weight as i64;
    proof {
        lemma_tan_at_index_between(lut_index as int);
        lemma_weighted_entry_fits(below as int, TAN_LUT_ONE - w);
        lemma_weighted_entry_fits(above as int, w as int);
    }

    // Weigh the two entries, add, and scale the sum back once.
    let sum: i64 = below * (TAN_LUT_ONE - w) + above * w;
    assert(sum >> 16u8 == sum / 0x1_0000) by (bit_vector);
    sum >> TAN_LUT_FRAC_BITS
}

/// Tangent for the normalized frequency `wc`, both in Q16; `wc` is in cycles
/// per sample, from 0 up to but not including one half.
pub fn tan_wc_i32(wc: i32) -> (result: i32)
    requires
        0 <= wc < 0x8000,
    ensures
        result == tan_at_index(tan_index(wc as int)),
        0 <= result <= 1334015,
{
    let lut_index: usize = (wc * 2) as usize * TAN_LUT_LENGTH;
    tan_lut_lookup(lut_index) as i32
}

} // verus!
