//! The per-pixel non-linear dequantization and blend algorithm.
//!
//! Each output sample is produced independently from one BL sample, one EL
//! sample and the fixed-point coefficients of the sample's component: the EL
//! sample is de-quantized through the dead-zone inverse quantizer, clamped,
//! rescaled, added to the BL sample (unless residuals are disabled), rounded
//! to the output bit depth and clamped into its range. All arithmetic is
//! signed 64-bit with truncating (arithmetic) shifts, reproduced here as
//! exact integer multiplications and floor divisions by powers of two.

use vstd::prelude::*;
use vstd::arithmetic::power2::{pow2, lemma_pow2_strictly_increases, lemma2_to64, lemma2_to64_rest};
use vstd::arithmetic::mul::{
    lemma_mul_upper_bound, lemma_mul_nonnegative, lemma_mul_unary_negation,
};
use vstd::arithmetic::div_mod::{
    lemma_fundamental_div_mod, lemma_fundamental_div_mod_converse, lemma_div_nonincreasing,
};

use crate::rpu::{RpuRecord, valid_record, el_bit_depth, out_bit_depth, pow2_u64};
use crate::coefficients::{
    FixedPointCoefficients, fixed_point, is_derived_from, lemma_fixed_point_bound,
};

verus! {

/// `x` clamped into `[lo, hi]`.
pub open spec fn clip(x: int, lo: int, hi: int) -> int {
    if x < lo {
        lo
    } else if x > hi {
        hi
    } else {
        x
    }
}

/// The dequantized EL residual: the EL sample's distance from the dead-zone
/// center, widened and scaled by the dead-zone slope, shifted by the
/// threshold away from zero, clamped to `in_max`, and rescaled from the
/// coefficient fixed-point scale to the output scale. Exactly zero when the
/// EL sample sits on the dead-zone center.
pub open spec fn spec_residual(
    el: int,
    offset: int,
    in_max: int,
    slope: int,
    threshold: int,
    el_bits: int,
    denom: int,
) -> int
    recommends
        8 <= el_bits <= 10,
        el_bits + 5 <= denom,
{
    let diff = el - offset;
    if diff == 0 {
        0
    } else {
        let sign: int = if diff < 0 {
            -1
        } else {
            1
        };
        let widened = (2 * diff - sign) * pow2((10 - el_bits) as nat);
        let dq = widened * slope + threshold * pow2((11 - el_bits) as nat) * sign;
        let rr = in_max * pow2((11 - el_bits) as nat);
        clip(dq, -rr, rr) / (pow2((denom - 5 - el_bits) as nat) as int)
    }
}

/// One output sample: the BL sample plus the residual (unless residuals are
/// disabled), rounded from the 16-bit working scale down to the output bit
/// depth with an arithmetic shift, and clamped into `[0, 2^out_bits - 1]`.
pub open spec fn spec_output_sample(bl: int, residual: int, out_bits: int, disable: bool) -> int
    recommends
        8 <= out_bits <= 15,
{
    let blended = if disable {
        bl
    } else {
        bl + residual
    };
    let rounded = blended + pow2((15 - out_bits) as nat);
    let shifted = rounded / (pow2((16 - out_bits) as nat) as int);
    clip(shifted, 0, pow2(out_bits as nat) - 1)
}

/// The full per-pixel transformation for component `cmp` of a record: the
/// fixed-point coefficients a record denotes, fed through the dequantizer
/// and the blend.
pub open spec fn spec_reconstruct(bl: int, el: int, r: RpuRecord, cmp: int) -> int {
    spec_output_sample(
        bl,
        spec_residual(
            el,
            r.nlq_offset[cmp] as int,
            fixed_point(r.vdr_in_max_int[cmp], r.vdr_in_max[cmp], r.coefficient_log2_denom),
            fixed_point(
                r.linear_deadzone_slope_int[cmp],
                r.linear_deadzone_slope[cmp],
                r.coefficient_log2_denom,
            ),
            fixed_point(
                r.linear_deadzone_threshold_int[cmp],
                r.linear_deadzone_threshold[cmp],
                r.coefficient_log2_denom,
            ),
            el_bit_depth(r),
            r.coefficient_log2_denom as int,
        ),
        out_bit_depth(r),
        r.disable_residual_flag,
    )
}

/// Euclidean division of `-a` by `m` equals the negated rounded-up quotient
/// of `a` by `m`: how an arithmetic right shift treats negative values.
proof fn lemma_neg_div_is_neg_ceil(a: int, m: int)
    requires
        a >= 0,
        m > 0,
    ensures
        (-a) / m == -((a + m - 1) / m),
{
    let q = a / m;
    let r = a % m;
    lemma_fundamental_div_mod(a, m);
    if r == 0 {
        assert(a + m - 1 == q * m + (m - 1)) by (nonlinear_arith)
            requires
                a == m * q + r,
                r == 0,
        ;
        lemma_fundamental_div_mod_converse(a + m - 1, m, q, m - 1);
        assert(-a == (-q) * m + 0) by (nonlinear_arith)
            requires
                a == m * q + r,
                r == 0,
        ;
        lemma_fundamental_div_mod_converse(-a, m, -q, 0);
    } else {
        assert(a + m - 1 == (q + 1) * m + (r - 1)) by (nonlinear_arith)
            requires
                a == m * q + r,
        ;
        lemma_fundamental_div_mod_converse(a + m - 1, m, q + 1, r - 1);
        assert(-a == (-(q + 1)) * m + (m - r)) by (nonlinear_arith)
            requires
                a == m * q + r,
        ;
        lemma_fundamental_div_mod_converse(-a, m, -(q + 1), m - r);
    }
}

/// A negative value divided by a positive one has a negative Euclidean
/// quotient.
proof fn lemma_div_neg_is_neg(x: int, m: int)
    requires
        x < 0,
        m > 0,
    ensures
        x / m < 0,
{
    lemma_fundamental_div_mod(x, m);
    if x / m >= 0 {
        lemma_mul_nonnegative(m, x / m);
        assert(false);
    }
}

/// The dequantized residual for one EL sample, under coefficient values
/// already evaluated to fixed point. Computed on unsigned magnitudes with an
/// explicit sign, so that every division is on non-negative values; the
/// rounded-up quotient on the negative side reproduces the arithmetic right
/// shift of the signed value.
#[verifier::rlimit(40)]
fn dequantize_residual(
    el: u16,
    offset: u16,
    in_max: i64,
    slope: i64,
    threshold: i64,
    el_bits: u64,
    denom: u64,
) -> (res: i64)
    requires
        8 <= el_bits <= 10,
        el_bits + 5 <= denom <= 23,
        0 <= in_max < pow2(40),
        0 <= slope < pow2(40),
        0 <= threshold < pow2(40),
    ensures
        res == spec_residual(
            el as int,
            offset as int,
            in_max as int,
            slope as int,
            threshold as int,
            el_bits as int,
            denom as int,
        ),
        -pow2(44) < res < pow2(44),
{
    proof {
        lemma2_to64();
        lemma2_to64_rest();
    }
    let ghost spec_res = spec_residual(
        el as int,
        offset as int,
        in_max as int,
        slope as int,
        threshold as int,
        el_bits as int,
        denom as int,
    );
    if el == offset {
        return 0;
    }
    let neg = el < offset;
    let mag0: u64 = if neg {
        (offset - el) as u64
    } else {
        (el - offset) as u64
    };
    let mag1: u64 = 2 * mag0 - 1;
    let p_widen: u64 = pow2_u64(10 - el_bits);
    let p_scale: u64 = pow2_u64(11 - el_bits);
    proof {
        if 10 - el_bits < 2 {
            lemma_pow2_strictly_increases((10 - el_bits) as nat, 2);
        }
        if 11 - el_bits < 3 {
            lemma_pow2_strictly_increases((11 - el_bits) as nat, 3);
        }
        lemma_mul_upper_bound(mag1 as int, 0x20000, p_widen as int, 4);
    }
    let mag2: u64 = mag1 * p_widen;
    proof {
        lemma_mul_upper_bound(mag2 as int, 0x80000, slope as int, pow2(40) as int);
        lemma_mul_upper_bound(threshold as int, pow2(40) as int, p_scale as int, 8);
        lemma_mul_upper_bound(in_max as int, pow2(40) as int, p_scale as int, 8);
        lemma_mul_nonnegative(mag2 as int, slope as int);
        lemma_mul_nonnegative(threshold as int, p_scale as int);
        lemma_mul_nonnegative(in_max as int, p_scale as int);
    }
    let dq_mag: u64 = mag2 * (slope as u64);
    let tt: u64 = (threshold as u64) * p_scale;
    let dq_tot: u64 = dq_mag + tt;
    let rr: u64 = (in_max as u64) * p_scale;
    let dq_clamped: u64 = if dq_tot > rr {
        rr
    } else {
        dq_tot
    };
    let p_res: u64 = pow2_u64(denom - 5 - el_bits);
    proof {
        if denom - 5 - el_bits < 10 {
            lemma_pow2_strictly_increases((denom - 5 - el_bits) as nat, 10);
        }
        lemma_div_nonincreasing((dq_clamped + p_res - 1) as int, p_res as int);
        lemma_div_nonincreasing(dq_clamped as int, p_res as int);
    }
    let res_mag: u64 = if neg {
        (dq_clamped + p_res - 1) / p_res
    } else {
        dq_clamped / p_res
    };
    proof {
        let diff = el as int - offset as int;
        let sign: int = if neg {
            -1
        } else {
            1
        };
        let widened = (2 * diff - sign) * pow2((10 - el_bits) as nat);
        let dq = widened * (slope as int) + (threshold as int) * pow2((11 - el_bits) as nat)
            * sign;
        let tp = (threshold as int) * pow2((11 - el_bits) as nat);
        assert(tt as int == (threshold as int) * (p_scale as int));
        assert(tp == tt as int);
        if neg {
            assert(2 * diff - sign == -(mag1 as int));
            assert(widened == -(mag2 as int)) by {
                lemma_mul_unary_negation(mag1 as int, p_widen as int);
            }
            assert(widened * (slope as int) == -(dq_mag as int)) by {
                lemma_mul_unary_negation(mag2 as int, slope as int);
            }
            assert(tp * sign == -(tt as int)) by (nonlinear_arith)
                requires
                    sign == -1,
                    tp == tt as int,
            ;
            assert(dq == -(dq_tot as int));
            assert(clip(dq, -(rr as int), rr as int) == -(dq_clamped as int));
            assert((-(dq_clamped as int)) / (p_res as int) == -(res_mag as int)) by {
                lemma_neg_div_is_neg_ceil(dq_clamped as int, p_res as int);
            }
            assert(spec_res == -(res_mag as int));
        } else {
            assert(2 * diff - sign == mag1 as int);
            assert(widened == mag2 as int);
            assert(tp * sign == tt as int) by (nonlinear_arith)
                requires
                    sign == 1,
                    tp == tt as int,
            ;
            assert(dq == dq_tot as int);
            assert(clip(dq, -(rr as int), rr as int) == dq_clamped as int);
            assert(spec_res == res_mag as int);
        }
    }
    if neg {
        -(res_mag as i64)
    } else {
        res_mag as i64
    }
}

/// One reconstructed output sample for component `cmp`, from one BL sample
/// and one EL sample, under a valid record and the coefficients derived from
/// it. The result always lies within the declared output range
/// `[0, 2^out_bit_depth - 1]`, whatever the BL and EL samples hold.
pub fn reconstruct_sample(
    bl: u16,
    el: u16,
    cmp: usize,
    r: &RpuRecord,
    c: &FixedPointCoefficients,
) -> (out: u16)
    requires
        cmp < 3,
        valid_record(*r),
        is_derived_from(*c, *r),
    ensures
        out == spec_reconstruct(bl as int, el as int, *r, cmp as int),
        out < pow2(out_bit_depth(*r) as nat),
{
    let el_bits: u64 = r.el_bit_depth_minus8 + 8;
    let out_bits: u64 = r.vdr_bit_depth_minus8 + 8;
    let denom: u64 = r.coefficient_log2_denom;
    proof {
        lemma2_to64();
        lemma2_to64_rest();
        lemma_fixed_point_bound(r.vdr_in_max_int[cmp as int], r.vdr_in_max[cmp as int], denom);
        lemma_fixed_point_bound(
            r.linear_deadzone_slope_int[cmp as int],
            r.linear_deadzone_slope[cmp as int],
            denom,
        );
        lemma_fixed_point_bound(
            r.linear_deadzone_threshold_int[cmp as int],
            r.linear_deadzone_threshold[cmp as int],
            denom,
        );
    }
    let in_max: i64 = c.in_max[cmp];
    let slope: i64 = c.deadzone_slope[cmp];
    let threshold: i64 = c.deadzone_threshold[cmp];
    let offset: u16 = r.nlq_offset[cmp];

    let residual: i64 = dequantize_residual(el, offset, in_max, slope, threshold, el_bits, denom);

    let bl_wide: i64 = bl as i64;
    let blended: i64 = if r.disable_residual_flag {
        bl_wide
    } else {
        bl_wide + residual
    };
    let round_term: u64 = pow2_u64(15 - out_bits);
    proof {
        if 15 - out_bits < 7 {
            lemma_pow2_strictly_increases((15 - out_bits) as nat, 7);
        }
        if 16 - out_bits < 8 {
            lemma_pow2_strictly_increases((16 - out_bits) as nat, 8);
        }
        if out_bits < 15 {
            lemma_pow2_strictly_increases(out_bits as nat, 15);
        }
    }
    let rounded: i64 = blended + (round_term as i64);
    let divisor: u64 = pow2_u64(16 - out_bits);
    let maxout: u64 = pow2_u64(out_bits) - 1;
    let out_val: u64 = if rounded < 0 {
        proof {
            lemma_div_neg_is_neg(rounded as int, divisor as int);
        }
        0
    } else {
        proof {
            lemma_div_nonincreasing(rounded as int, divisor as int);
        }
        let q: u64 = (rounded as u64) / divisor;
        if q > maxout {
            maxout
        } else {
            q
        }
    };
    out_val as u16
}

/// A whole plane reconstructed sample by sample: element `i` of the result
/// is the per-pixel transformation of element `i` of the BL and EL planes.
/// No output sample depends on any other sample or on the order the plane is
/// walked in.
pub open spec fn spec_plane(bl: Seq<u16>, el: Seq<u16>, r: RpuRecord, cmp: int) -> Seq<u16>
    recommends
        bl.len() == el.len(),
{
    Seq::new(bl.len(), |i: int| spec_reconstruct(bl[i] as int, el[i] as int, r, cmp) as u16)
}

/// Reconstructs one plane of component `cmp` sequentially.
pub fn reconstruct_plane(
    bl: &Vec<u16>,
    el: &Vec<u16>,
    cmp: usize,
    r: &RpuRecord,
    c: &FixedPointCoefficients,
) -> (out: Vec<u16>)
    requires
        cmp < 3,
        valid_record(*r),
        is_derived_from(*c, *r),
        bl@.len() == el@.len(),
    ensures
        out@ == spec_plane(bl@, el@, *r, cmp as int),
{
    proof {
        lemma2_to64();
        if out_bit_depth(*r) < 15 {
            lemma_pow2_strictly_increases(out_bit_depth(*r) as nat, 15);
        }
    }
    let n = bl.len();
    let mut out: Vec<u16> = Vec::new();
    let mut i: usize = 0;
    while i < n
        invariant
            i <= n,
            n == bl@.len(),
            el@.len() == n,
            cmp < 3,
            valid_record(*r),
            is_derived_from(*c, *r),
            out@.len() == i,
            pow2(out_bit_depth(*r) as nat) <= 0x8000,
            forall|j: int| 0 <= j < i ==> out@[j] == spec_plane(bl@, el@, *r, cmp as int)[j],
        decreases n - i,
    {
        let s = reconstruct_sample(bl[i], el[i], cmp, r, c);
        out.push(s);
        i += 1;
    }
    proof {
        assert(out@ =~= spec_plane(bl@, el@, *r, cmp as int));
    }
    out
}

/// An EL sample on the dead-zone center dequantizes to a residual of exactly
/// zero, whatever the slope, threshold and clamp bound hold.
pub proof fn lemma_residual_zero_at_offset(
    el: int,
    offset: int,
    in_max: int,
    slope: int,
    threshold: int,
    el_bits: int,
    denom: int,
)
    requires
        el == offset,
    ensures
        spec_residual(el, offset, in_max, slope, threshold, el_bits, denom) == 0,
{
}

/// When the EL sample sits on the dead-zone center, the output sample is the
/// rounded, rescaled BL sample alone: two records that agree on the output
/// bit depth and the residual flag produce the same output there, however
/// their slopes, thresholds and clamp bounds differ.
pub proof fn lemma_offset_sample_ignores_coefficients(
    bl: int,
    el: int,
    r1: RpuRecord,
    r2: RpuRecord,
    cmp1: int,
    cmp2: int,
)
    requires
        0 <= cmp1 < 3,
        0 <= cmp2 < 3,
        el == r1.nlq_offset[cmp1] as int,
        el == r2.nlq_offset[cmp2] as int,
        out_bit_depth(r1) == out_bit_depth(r2),
        r1.disable_residual_flag == r2.disable_residual_flag,
    ensures
        spec_reconstruct(bl, el, r1, cmp1) == spec_reconstruct(bl, el, r2, cmp2),
{
}

/// The clamping invariant: every output sample lies in
/// `[0, 2^out_bit_depth - 1]`, for any BL and EL sample values whatever.
pub proof fn lemma_output_in_range(bl: int, el: int, r: RpuRecord, cmp: int)
    ensures
        0 <= spec_reconstruct(bl, el, r, cmp) < pow2(out_bit_depth(r) as nat),
{
    vstd::arithmetic::power2::lemma_pow2_pos(out_bit_depth(r) as nat);
}

/// With residuals disabled the output depends on the BL sample, the output
/// bit depth and the rounding alone: never on the EL sample or on any
/// coefficient.
pub proof fn lemma_disabled_residual_ignores_el(
    bl: int,
    el1: int,
    el2: int,
    r1: RpuRecord,
    r2: RpuRecord,
    cmp1: int,
    cmp2: int,
)
    requires
        r1.disable_residual_flag,
        r2.disable_residual_flag,
        out_bit_depth(r1) == out_bit_depth(r2),
    ensures
        spec_reconstruct(bl, el1, r1, cmp1) == spec_reconstruct(bl, el2, r2, cmp2),
{
}

/// Splitting a plane anywhere and reconstructing the pieces independently
/// yields exactly the sequential result: parallel evaluation over disjoint
/// chunks is bit-identical to sequential evaluation.
pub proof fn lemma_plane_split(
    bl1: Seq<u16>,
    el1: Seq<u16>,
    bl2: Seq<u16>,
    el2: Seq<u16>,
    r: RpuRecord,
    cmp: int,
)
    requires
        bl1.len() == el1.len(),
        bl2.len() == el2.len(),
    ensures
        spec_plane(bl1 + bl2, el1 + el2, r, cmp) == spec_plane(bl1, el1, r, cmp) + spec_plane(
            bl2,
            el2,
            r,
            cmp,
        ),
{
    assert(spec_plane(bl1 + bl2, el1 + el2, r, cmp) =~= spec_plane(bl1, el1, r, cmp) + spec_plane(
        bl2,
        el2,
        r,
        cmp,
    ));
}

} // verus!
