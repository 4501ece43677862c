//! Per-pixel algorithm tests: exact scenario values, dead-zone behaviour,
//! clamping, disabled residuals, and split-plane equivalence.


use vsnlq::nlq::{reconstruct_plane, reconstruct_sample};
use vsnlq::RpuRecord;

fn base_record() -> RpuRecord {
    RpuRecord {
        profile: 7,
        vdr_bit_depth_minus8: 2,
        el_bit_depth_minus8: 2,
        coefficient_log2_denom: 23,
        disable_residual_flag: false,
        nlq_num_pivots_minus2: 0,
        nlq_offset: [0, 0, 0],
        vdr_in_max_int: [0, 0, 0],
        vdr_in_max: [1023, 1023, 1023],
        linear_deadzone_slope_int: [1, 1, 1],
        linear_deadzone_slope: [0, 0, 0],
        linear_deadzone_threshold_int: [0, 0, 0],
        linear_deadzone_threshold: [0, 0, 0],
    }
}

#[test]
fn zero_diff_scenario() {
    // el == nlq_offset, so the residual is 0 and the output is the rounded,
    // rescaled BL sample: 512 + 32 == 544, then 544 >> 6 == 8.
    let r = base_record();
    let c = vsnlq::coefficients::derive(&r);
    assert_eq!(reconstruct_sample(512, 0, 0, &r, &c), 8);
}

#[test]
fn unit_diff_scenario() {
    // el = 1: diff widens to 1, dq = 1 << 23 clamps to rr = 2046,
    // residual = 2046 >> 8 == 7; 0 + 7 + 32 == 39, then 39 >> 6 == 0.
    let r = base_record();
    let c = vsnlq::coefficients::derive(&r);
    assert_eq!(reconstruct_sample(0, 1, 0, &r, &c), 0);
}

#[test]
fn negative_residual() {
    // offset 512, el 0: the clamped dequantized value is -2046 and the
    // arithmetic shift rounds it to -8; 512 - 8 + 32 == 536, 536 >> 6 == 8.
    let mut r = base_record();
    r.nlq_offset = [512, 512, 512];
    let c = vsnlq::coefficients::derive(&r);
    assert_eq!(reconstruct_sample(512, 0, 0, &r, &c), 8);
    // With bl = 0 the blended value goes negative and clamps to 0.
    assert_eq!(reconstruct_sample(0, 0, 0, &r, &c), 0);
}

#[test]
fn output_clamped_to_declared_range() {
    let r = base_record();
    let c = vsnlq::coefficients::derive(&r);
    // Largest BL sample: 65535 + 32 == 65567, 65567 >> 6 == 1024, clamped
    // to the 10-bit maximum 1023.
    assert_eq!(reconstruct_sample(65535, 0, 0, &r, &c), 1023);
    // Extreme EL samples never push the output outside [0, 1023].
    for &el in &[0u16, 1, 511, 512, 1023, 65535] {
        for &bl in &[0u16, 1, 512, 1023, 65535] {
            let out = reconstruct_sample(bl, el, 1, &r, &c);
            assert!(out <= 1023);
        }
    }
}

#[test]
fn offset_sample_ignores_coefficients() {
    // An EL sample on the dead-zone center gives the BL-only output,
    // whatever slope, threshold and clamp bound hold.
    let mut r1 = base_record();
    r1.nlq_offset = [7, 7, 7];
    let mut r2 = r1;
    r2.linear_deadzone_slope_int = [9, 9, 9];
    r2.linear_deadzone_threshold = [12345, 1, 7];
    r2.vdr_in_max = [1, 2, 3];
    let c1 = vsnlq::coefficients::derive(&r1);
    let c2 = vsnlq::coefficients::derive(&r2);
    for cmp in 0..3usize {
        assert_eq!(
            reconstruct_sample(300, 7, cmp, &r1, &c1),
            reconstruct_sample(300, 7, cmp, &r2, &c2),
        );
    }
    // 300 + 32 == 332, 332 >> 6 == 5.
    assert_eq!(reconstruct_sample(300, 7, 0, &r1, &c1), 5);
}

#[test]
fn disabled_residual_ignores_el() {
    let mut r = base_record();
    r.disable_residual_flag = true;
    let c = vsnlq::coefficients::derive(&r);
    let expected = reconstruct_sample(640, 0, 0, &r, &c);
    // 640 + 32 == 672, 672 >> 6 == 10.
    assert_eq!(expected, 10);
    for &el in &[0u16, 1, 64, 512, 65535] {
        assert_eq!(reconstruct_sample(640, el, 0, &r, &c), expected);
        assert_eq!(reconstruct_sample(640, el, 2, &r, &c), expected);
    }
}

#[test]
fn plane_matches_samples() {
    let r = base_record();
    let c = vsnlq::coefficients::derive(&r);
    let bl: Vec<u16> = vec![0, 512, 1023, 65535, 300, 4];
    let el: Vec<u16> = vec![1, 0, 2, 5, 1000, 65535];
    let plane = reconstruct_plane(&bl, &el, 0, &r, &c);
    assert_eq!(plane.len(), bl.len());
    for i in 0..bl.len() {
        assert_eq!(plane[i], reconstruct_sample(bl[i], el[i], 0, &r, &c));
    }
}

#[test]
fn nine_bit_el_widens_by_one() {
    // el_bit_depth 9, out_bit_depth 12, scale exponent 20.
    let r = RpuRecord {
        profile: 7,
        vdr_bit_depth_minus8: 4,
        el_bit_depth_minus8: 1,
        coefficient_log2_denom: 20,
        disable_residual_flag: false,
        nlq_num_pivots_minus2: 0,
        nlq_offset: [3, 3, 3],
        vdr_in_max_int: [0, 0, 0],
        vdr_in_max: [511, 511, 511],
        linear_deadzone_slope_int: [1, 1, 1],
        linear_deadzone_slope: [0, 0, 0],
        linear_deadzone_threshold_int: [0, 0, 0],
        linear_deadzone_threshold: [0, 0, 0],
    };
    let c = vsnlq::coefficients::derive(&r);
    // el 6: diff 3 widens to 5 << 1 == 10; 10 * 2^20 clamps to 511 << 2 ==
    // 2044; residual 2044 >> 6 == 31; 100 + 31 + 8 == 139; 139 >> 4 == 8.
    assert_eq!(reconstruct_sample(100, 6, 0, &r, &c), 8);
    // el 0: diff -3, the residual is the rounded-up quotient negated:
    // -ceil(2044 / 64) == -32; 100 - 32 + 8 == 76; 76 >> 4 == 4.
    assert_eq!(reconstruct_sample(100, 0, 0, &r, &c), 4);
}

#[test]
fn eight_bit_el_widens_by_two() {
    // el_bit_depth 8, out_bit_depth 8, scale exponent 13.
    let r = RpuRecord {
        profile: 7,
        vdr_bit_depth_minus8: 0,
        el_bit_depth_minus8: 0,
        coefficient_log2_denom: 13,
        disable_residual_flag: false,
        nlq_num_pivots_minus2: 0,
        nlq_offset: [0, 0, 0],
        vdr_in_max_int: [0, 0, 0],
        vdr_in_max: [8191, 8191, 8191],
        linear_deadzone_slope_int: [1, 1, 1],
        linear_deadzone_slope: [0, 0, 0],
        linear_deadzone_threshold_int: [0, 0, 0],
        linear_deadzone_threshold: [0, 0, 0],
    };
    let c = vsnlq::coefficients::derive(&r);
    // el 1: diff 1 widens to 1 << 2 == 4; dq = 4 * 8192 == 32768, under the
    // clamp bound 8191 << 3; residual shift is 13 - 5 - 8 == 0, so the
    // residual stays 32768; 32768 + 128 == 32896; 32896 >> 8 == 128.
    assert_eq!(reconstruct_sample(0, 1, 0, &r, &c), 128);
}

#[test]
fn split_plane_matches_sequential() {
    // Reconstructing two halves independently and concatenating them gives
    // exactly the sequential whole-plane result.
    let r = base_record();
    let c = vsnlq::coefficients::derive(&r);
    let bl: Vec<u16> = (0..64).map(|i| (i * 997 % 65536) as u16).collect();
    let el: Vec<u16> = (0..64).map(|i| (i * 131 % 2048) as u16).collect();
    let whole = reconstruct_plane(&bl, &el, 1, &r, &c);
    let (bl1, bl2) = bl.split_at(29);
    let (el1, el2) = el.split_at(29);
    let mut parts = reconstruct_plane(&bl1.to_vec(), &el1.to_vec(), 1, &r, &c);
    parts.extend(reconstruct_plane(&bl2.to_vec(), &el2.to_vec(), 1, &r, &c));
    assert_eq!(whole, parts);
}
