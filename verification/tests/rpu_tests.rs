//! RPU resolution, validation and coefficient-derivation tests.


use vsnlq::rpu::{is_valid_record, record_fits, validate_entry, validate_rpu};
use vsnlq::{MapNLQ, NlqError, ParsedRpu, RpuRecord};

fn valid_record() -> RpuRecord {
    RpuRecord {
        profile: 7,
        vdr_bit_depth_minus8: 2,
        el_bit_depth_minus8: 2,
        coefficient_log2_denom: 23,
        disable_residual_flag: false,
        nlq_num_pivots_minus2: 0,
        nlq_offset: [64, 64, 64],
        vdr_in_max_int: [1, 1, 1],
        vdr_in_max: [0, 0, 0],
        linear_deadzone_slope_int: [2, 2, 2],
        linear_deadzone_slope: [100, 200, 300],
        linear_deadzone_threshold_int: [0, 0, 0],
        linear_deadzone_threshold: [1, 2, 3],
    }
}

#[test]
fn derive_is_deterministic() {
    let r = valid_record();
    let c1 = vsnlq::coefficients::derive(&r);
    let c2 = vsnlq::coefficients::derive(&r);
    assert_eq!(c1, c2);
    // Exact fixed-point values: (int << 23) + frac.
    assert_eq!(c1.in_max, [1 << 23, 1 << 23, 1 << 23]);
    assert_eq!(
        c1.deadzone_slope,
        [(2 << 23) + 100, (2 << 23) + 200, (2 << 23) + 300]
    );
    assert_eq!(c1.deadzone_threshold, [1, 2, 3]);
}

#[test]
fn validate_accepts_profile7_single_pivot() {
    let r = valid_record();
    assert_eq!(validate_rpu(&r), Ok(()));
    assert!(is_valid_record(&r));
    assert!(record_fits(&r));
}

#[test]
fn profile8_is_rejected() {
    // A Profile-8 RPU fails with UnsupportedProfile; no fallback happens.
    let mut r = valid_record();
    r.profile = 8;
    assert_eq!(validate_rpu(&r), Err(NlqError::UnsupportedProfile));
    let filter = MapNLQ {
        rpus: Some(vec![ParsedRpu::Complete(r); 4]),
    };
    assert_eq!(
        filter.resolve_rpu(2, None),
        Err(NlqError::UnsupportedProfile)
    );
    // A list entry that parsed without NLQ data but with a known profile
    // other than 7 also reports the profile, and fails only its own frame.
    let filter = MapNLQ {
        rpus: Some(vec![
            ParsedRpu::Complete(valid_record()),
            ParsedRpu::WithoutNlq(8),
        ]),
    };
    assert!(filter.resolve_rpu(0, None).is_ok());
    assert_eq!(
        filter.resolve_rpu(1, None),
        Err(NlqError::UnsupportedProfile)
    );
}

#[test]
fn multi_pivot_is_rejected() {
    let mut r = valid_record();
    r.nlq_num_pivots_minus2 = 1;
    assert_eq!(validate_rpu(&r), Err(NlqError::UnsupportedPivotCount));
    let filter = MapNLQ {
        rpus: Some(vec![ParsedRpu::Complete(r)]),
    };
    assert_eq!(
        filter.resolve_rpu(0, None),
        Err(NlqError::UnsupportedPivotCount)
    );
}

#[test]
fn list_lookup_uses_frame_index() {
    let mut special = valid_record();
    special.nlq_offset = [111, 222, 333];
    let mut records = vec![ParsedRpu::Complete(valid_record()); 10];
    records[3] = ParsedRpu::Complete(special);
    let filter = MapNLQ {
        rpus: Some(records),
    };
    let rec = filter.resolve_rpu(3, None).unwrap();
    assert_eq!(rec.nlq_offset, [111, 222, 333]);
    // The list takes precedence over embedded metadata.
    let rec = filter
        .resolve_rpu(3, Some(ParsedRpu::Invalid))
        .unwrap();
    assert_eq!(rec.nlq_offset, [111, 222, 333]);
}

#[test]
fn index_past_list_end_is_out_of_range() {
    // A list of length 10 queried at index 10 fails, never reusing entry 9.
    let filter = MapNLQ {
        rpus: Some(vec![ParsedRpu::Complete(valid_record()); 10]),
    };
    assert!(filter.resolve_rpu(9, None).is_ok());
    assert_eq!(filter.resolve_rpu(10, None), Err(NlqError::IndexOutOfRange));
    assert_eq!(
        filter.resolve_rpu(usize::MAX, None),
        Err(NlqError::IndexOutOfRange)
    );
}

#[test]
fn missing_metadata_without_any_source() {
    let filter = MapNLQ { rpus: None };
    assert_eq!(filter.resolve_rpu(0, None), Err(NlqError::MissingMetadata));
}

#[test]
fn malformed_embedded_metadata_is_rejected() {
    let filter = MapNLQ { rpus: None };
    // Bytes that did not parse as an RPU.
    assert_eq!(
        filter.resolve_rpu(0, Some(ParsedRpu::Invalid)),
        Err(NlqError::MalformedMetadata)
    );
    // A Profile 7 RPU without NLQ data cannot drive the algorithm.
    assert_eq!(
        filter.resolve_rpu(5, Some(ParsedRpu::WithoutNlq(7))),
        Err(NlqError::MalformedMetadata)
    );
    // One that parsed without NLQ data and is not Profile 7 reports that.
    assert_eq!(
        filter.resolve_rpu(5, Some(ParsedRpu::WithoutNlq(8))),
        Err(NlqError::UnsupportedProfile)
    );
    assert_eq!(
        validate_entry(&ParsedRpu::Invalid),
        Err(NlqError::MalformedMetadata)
    );
}

#[test]
fn record_fits_rejects_out_of_range_fields() {
    let mut r = valid_record();
    r.el_bit_depth_minus8 = 3;
    assert!(!record_fits(&r));

    let mut r = valid_record();
    r.vdr_bit_depth_minus8 = 8;
    assert!(!record_fits(&r));

    let mut r = valid_record();
    r.coefficient_log2_denom = 24;
    assert!(!record_fits(&r));

    let mut r = valid_record();
    r.coefficient_log2_denom = 14;
    assert!(!record_fits(&r));

    let mut r = valid_record();
    r.linear_deadzone_slope_int = [0x10000, 0, 0];
    assert!(!record_fits(&r));

    let mut r = valid_record();
    r.vdr_in_max = [1 << 23, 0, 0];
    assert!(!record_fits(&r));
}

#[test]
fn error_messages_name_the_condition() {
    assert_eq!(NlqError::UnsupportedProfile.message(), "the RPU profile is not 7");
    assert_eq!(
        NlqError::UnsupportedSampleFormat.message(),
        "floating point formats are not supported"
    );
}
