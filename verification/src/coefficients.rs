//! Derivation of fixed-point reconstruction coefficients from an RPU record.
//!
//! Each per-component coefficient arrives in the RPU as an (integer part,
//! fractional part) pair; its fixed-point value is the integer part scaled
//! by `2^coefficient_log2_denom` plus the fractional part. Derivation is a
//! pure function of the record: equal records always yield bit-identical
//! coefficients, so a derived value may be cached and reused freely.

use vstd::prelude::*;
use vstd::arithmetic::power2::{pow2, lemma_pow2_strictly_increases, lemma2_to64, lemma2_to64_rest};
use vstd::arithmetic::mul::lemma_mul_upper_bound;

use crate::rpu::{RpuRecord, pow2_u64, supported_depths, coefficient_parts_in_range};

verus! {

/// The fixed-point value of an (integer part, fractional part) pair under
/// the scale exponent `denom`.
pub open spec fn fixed_point(int_part: u64, frac: u64, denom: u64) -> int {
    int_part * pow2(denom as nat) + frac
}

/// The signed 64-bit fixed-point constants the per-pixel formula consumes,
/// one value per component.
#[derive(Clone, Copy, Debug, PartialEq, Eq)]
pub struct FixedPointCoefficients {
    /// Per-component clamp bound of the dequantized residual.
    pub in_max: [i64; 3],
    /// Per-component dead-zone slope.
    pub deadzone_slope: [i64; 3],
    /// Per-component dead-zone threshold.
    pub deadzone_threshold: [i64; 3],
}

/// The coefficients are exactly those the record's fields denote.
pub open spec fn is_derived_from(c: FixedPointCoefficients, r: RpuRecord) -> bool {
    &&& forall|i: int|
        0 <= i < 3 ==> #[trigger] c.in_max[i] == fixed_point(
            r.vdr_in_max_int[i],
            r.vdr_in_max[i],
            r.coefficient_log2_denom,
        )
    &&& forall|i: int|
        0 <= i < 3 ==> #[trigger] c.deadzone_slope[i] == fixed_point(
            r.linear_deadzone_slope_int[i],
            r.linear_deadzone_slope[i],
            r.coefficient_log2_denom,
        )
    &&& forall|i: int|
        0 <= i < 3 ==> #[trigger] c.deadzone_threshold[i] == fixed_point(
            r.linear_deadzone_threshold_int[i],
            r.linear_deadzone_threshold[i],
            r.coefficient_log2_denom,
        )
}

/// A fixed-point value built from an integer part of at most 16 bits under a
/// scale exponent of at most 23 stays below `2^40`.
pub proof fn lemma_fixed_point_bound(int_part: u64, frac: u64, denom: u64)
    requires
        int_part <= 0xFFFF,
        denom <= 23,
        frac < pow2(denom as nat),
    ensures
        0 <= fixed_point(int_part, frac, denom) < pow2(40),
{
    lemma2_to64();
    lemma2_to64_rest();
    if denom < 23 {
        lemma_pow2_strictly_increases(denom as nat, 23);
    }
    lemma_mul_upper_bound(int_part as int, 0xFFFF, pow2(denom as nat) as int, pow2(23) as int);
}

/// One coefficient's fixed-point value:
/// `(int_part << denom) + frac`, computed without overflow.
fn fixed_point_value(int_part: u64, frac: u64, denom: u64) -> (v: i64)
    requires
        int_part <= 0xFFFF,
        denom <= 23,
        frac < pow2(denom as nat),
    ensures
        v == fixed_point(int_part, frac, denom),
        0 <= v < pow2(40),
{
    proof {
        lemma2_to64();
        lemma2_to64_rest();
        lemma_fixed_point_bound(int_part, frac, denom);
        vstd::bits::lemma_u64_shl_is_mul(int_part, denom);
    }
    ((int_part << denom) + frac) as i64
}

/// Derives the fixed-point reconstruction constants from a record, per
/// component: each of `in_max`, `deadzone_slope` and `deadzone_threshold`
/// is the record's (integer part, fractional part) pair evaluated under the
/// record's scale exponent. Pure: the result is determined by the record's
/// fields alone, so recomputing per frame and reusing a cached value are
/// interchangeable.
pub fn derive(r: &RpuRecord) -> (c: FixedPointCoefficients)
    requires
        supported_depths(*r),
        coefficient_parts_in_range(*r),
    ensures
        is_derived_from(c, *r),
        forall|i: int|
            0 <= i < 3 ==> 0 <= #[trigger] c.in_max[i] < pow2(40) && 0 <= c.deadzone_slope[i]
                < pow2(40) && 0 <= c.deadzone_threshold[i] < pow2(40),
{
    let d = r.coefficient_log2_denom;
    let c = FixedPointCoefficients {
        in_max: [
            fixed_point_value(r.vdr_in_max_int[0], r.vdr_in_max[0], d),
            fixed_point_value(r.vdr_in_max_int[1], r.vdr_in_max[1], d),
            fixed_point_value(r.vdr_in_max_int[2], r.vdr_in_max[2], d),
        ],
        deadzone_slope: [
            fixed_point_value(r.linear_deadzone_slope_int[0], r.linear_deadzone_slope[0], d),
            fixed_point_value(r.linear_deadzone_slope_int[1], r.linear_deadzone_slope[1], d),
            fixed_point_value(r.linear_deadzone_slope_int[2], r.linear_deadzone_slope[2], d),
        ],
        deadzone_threshold: [
            fixed_point_value(
                r.linear_deadzone_threshold_int[0],
                r.linear_deadzone_threshold[0],
                d,
            ),
            fixed_point_value(
                r.linear_deadzone_threshold_int[1],
                r.linear_deadzone_threshold[1],
                d,
            ),
            fixed_point_value(
                r.linear_deadzone_threshold_int[2],
                r.linear_deadzone_threshold[2],
                d,
            ),
        ],
    };
    c
}

/// Derivation is deterministic: two coefficient sets derived from the same
/// record are bit-identical, component by component.
pub proof fn lemma_derive_deterministic(
    r: RpuRecord,
    c1: FixedPointCoefficients,
    c2: FixedPointCoefficients,
)
    requires
        is_derived_from(c1, r),
        is_derived_from(c2, r),
    ensures
        c1 == c2,
{
    broadcast use vstd::array::group_array_axioms;

    assert(c1.in_max =~= c2.in_max);
    assert(c1.deadzone_slope =~= c2.deadzone_slope);
    assert(c1.deadzone_threshold =~= c2.deadzone_threshold);
}

} // verus!
