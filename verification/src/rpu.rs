//! RPU records and per-frame RPU resolution.
//!
//! An `RpuRecord` holds the fields of one frame's reshaping metadata that the
//! reconstruction algorithm consumes. `MapNLQ` resolves which record applies
//! to a frame index — from a precomputed list, or from the parse outcome of
//! the metadata blob embedded in the EL frame — and validates it.

use vstd::prelude::*;
use vstd::arithmetic::power2::pow2;

use crate::error::NlqError;

verus! {

/// One frame's reshaping metadata, as consumed by the reconstruction
/// algorithm: stream profile, bit depths, the fixed-point scale exponent,
/// and the per-component NLQ coefficient fields, each as an
/// (integer part, fractional part) pair.
#[derive(Clone, Copy, Debug, PartialEq, Eq)]
pub struct RpuRecord {
    /// Dolby Vision profile; the algorithm requires profile 7.
    pub profile: u8,
    /// Output bit depth minus 8.
    pub vdr_bit_depth_minus8: u64,
    /// Enhancement-layer bit depth minus 8.
    pub el_bit_depth_minus8: u64,
    /// Exponent defining the fixed-point scale of all coefficient fields.
    pub coefficient_log2_denom: u64,
    /// When set, the EL residual is dropped entirely (output = BL only).
    pub disable_residual_flag: bool,
    /// Pivot-count field from the bitstream; the effective number of NLQ
    /// pivots is this value plus one, so a single NLQ segment has 0 here.
    pub nlq_num_pivots_minus2: u8,
    /// Per-component dead-zone center of the EL signal.
    pub nlq_offset: [u16; 3],
    /// Integer parts of the per-component clamp bound.
    pub vdr_in_max_int: [u64; 3],
    /// Fractional parts of the per-component clamp bound.
    pub vdr_in_max: [u64; 3],
    /// Integer parts of the per-component dead-zone slope.
    pub linear_deadzone_slope_int: [u64; 3],
    /// Fractional parts of the per-component dead-zone slope.
    pub linear_deadzone_slope: [u64; 3],
    /// Integer parts of the per-component dead-zone threshold.
    pub linear_deadzone_threshold_int: [u64; 3],
    /// Fractional parts of the per-component dead-zone threshold.
    pub linear_deadzone_threshold: [u64; 3],
}

/// The enhancement-layer bit depth declared by a record.
pub open spec fn el_bit_depth(r: RpuRecord) -> int {
    r.el_bit_depth_minus8 + 8
}

/// The output bit depth declared by a record.
pub open spec fn out_bit_depth(r: RpuRecord) -> int {
    r.vdr_bit_depth_minus8 + 8
}

/// The number of NLQ pivots declared by a record.
pub open spec fn num_nlq_pivots(r: RpuRecord) -> int {
    r.nlq_num_pivots_minus2 + 1
}

/// The bit depths and the fixed-point exponent lie in the ranges the
/// fixed-point formula is defined for: every shift amount it uses is
/// non-negative and every intermediate value fits in 64 signed bits.
pub open spec fn supported_depths(r: RpuRecord) -> bool {
    &&& 8 <= el_bit_depth(r) <= 10
    &&& 8 <= out_bit_depth(r) <= 15
    &&& el_bit_depth(r) + 5 <= r.coefficient_log2_denom <= 23
}

/// Every coefficient field is small enough that its fixed-point value
/// (integer part scaled by `2^coefficient_log2_denom`, plus fractional part)
/// stays below `2^40`.
pub open spec fn coefficient_parts_in_range(r: RpuRecord) -> bool {
    forall|c: int|
        0 <= c < 3 ==> {
            &&& #[trigger] r.vdr_in_max_int[c] <= 0xFFFF
            &&& r.vdr_in_max[c] < pow2(r.coefficient_log2_denom as nat)
            &&& r.linear_deadzone_slope_int[c] <= 0xFFFF
            &&& r.linear_deadzone_slope[c] < pow2(r.coefficient_log2_denom as nat)
            &&& r.linear_deadzone_threshold_int[c] <= 0xFFFF
            &&& r.linear_deadzone_threshold[c] < pow2(r.coefficient_log2_denom as nat)
        }
}

/// A record the reconstruction algorithm is defined for: Profile 7, a single
/// NLQ segment, and fields within the ranges of the fixed-point arithmetic.
pub open spec fn valid_record(r: RpuRecord) -> bool {
    &&& r.profile == 7
    &&& num_nlq_pivots(r) == 1
    &&& supported_depths(r)
    &&& coefficient_parts_in_range(r)
}

/// `2^k`, computed in a 64-bit word.
pub(crate) fn pow2_u64(k: u64) -> (p: u64)
    requires
        k < 64,
    ensures
        p == pow2(k as nat),
        p >= 1,
{
    proof {
        vstd::bits::lemma_u64_pow2_no_overflow(k as nat);
        vstd::bits::lemma_u64_shl_is_mul(1u64, k);
    }
    1u64 << k
}

/// Checks that one component's coefficient fields lie in the ranges of the
/// fixed-point arithmetic.
fn component_fits(r: &RpuRecord, c: usize) -> (b: bool)
    requires
        c < 3,
        r.coefficient_log2_denom < 64,
    ensures
        b == {
            &&& r.vdr_in_max_int[c as int] <= 0xFFFF
            &&& r.vdr_in_max[c as int] < pow2(r.coefficient_log2_denom as nat)
            &&& r.linear_deadzone_slope_int[c as int] <= 0xFFFF
            &&& r.linear_deadzone_slope[c as int] < pow2(r.coefficient_log2_denom as nat)
            &&& r.linear_deadzone_threshold_int[c as int] <= 0xFFFF
            &&& r.linear_deadzone_threshold[c as int] < pow2(r.coefficient_log2_denom as nat)
        },
{
    let scale = pow2_u64(r.coefficient_log2_denom);
    r.vdr_in_max_int[c] <= 0xFFFF && r.vdr_in_max[c] < scale
        && r.linear_deadzone_slope_int[c] <= 0xFFFF && r.linear_deadzone_slope[c] < scale
        && r.linear_deadzone_threshold_int[c] <= 0xFFFF && r.linear_deadzone_threshold[c] < scale
}

/// Decides whether a record lies within the ranges the fixed-point formula
/// is defined for; callers must reject or refuse records that do not.
pub fn record_fits(r: &RpuRecord) -> (b: bool)
    ensures
        b == (supported_depths(*r) && coefficient_parts_in_range(*r)),
{
    let depths_ok = r.el_bit_depth_minus8 <= 2 && r.vdr_bit_depth_minus8 <= 7
        && r.coefficient_log2_denom <= 23 && r.el_bit_depth_minus8 + 13
        <= r.coefficient_log2_denom;
    if !depths_ok {
        return false;
    }
    let parts_ok = component_fits(r, 0) && component_fits(r, 1) && component_fits(r, 2);
    if parts_ok {
        assert forall|c: int| 0 <= c < 3 implies {
            &&& #[trigger] r.vdr_in_max_int[c] <= 0xFFFF
            &&& r.vdr_in_max[c] < pow2(r.coefficient_log2_denom as nat)
            &&& r.linear_deadzone_slope_int[c] <= 0xFFFF
            &&& r.linear_deadzone_slope[c] < pow2(r.coefficient_log2_denom as nat)
            &&& r.linear_deadzone_threshold_int[c] <= 0xFFFF
            &&& r.linear_deadzone_threshold[c] < pow2(r.coefficient_log2_denom as nat)
        } by {
            assert(c == 0 || c == 1 || c == 2);
        }
    }
    parts_ok
}

/// Decides whether the algorithm is defined for a record: Profile 7, one
/// NLQ segment, and fields within the fixed-point arithmetic's ranges.
pub fn is_valid_record(r: &RpuRecord) -> (b: bool)
    ensures
        b == valid_record(*r),
{
    r.profile == 7 && r.nlq_num_pivots_minus2 == 0 && record_fits(r)
}

/// Checks the stream-level constraints on a resolved record: the profile
/// must be 7 and the record must declare exactly one NLQ pivot. Rejects
/// anything else rather than silently mis-mapping it.
pub fn validate_rpu(r: &RpuRecord) -> (res: Result<(), NlqError>)
    ensures
        r.profile != 7 ==> res == Err::<(), NlqError>(NlqError::UnsupportedProfile),
        r.profile == 7 && num_nlq_pivots(*r) != 1 ==> res == Err::<(), NlqError>(
            NlqError::UnsupportedPivotCount,
        ),
        r.profile == 7 && num_nlq_pivots(*r) == 1 ==> res == Ok::<(), NlqError>(()),
{
    if r.profile != 7 {
        Err(NlqError::UnsupportedProfile)
    } else if r.nlq_num_pivots_minus2 != 0 {
        Err(NlqError::UnsupportedPivotCount)
    } else {
        Ok(())
    }
}

/// Stream-level validation applied to a freshly resolved record.
pub open spec fn spec_validated(rec: RpuRecord) -> Result<RpuRecord, NlqError> {
    if rec.profile != 7 {
        Err(NlqError::UnsupportedProfile)
    } else if num_nlq_pivots(rec) != 1 {
        Err(NlqError::UnsupportedPivotCount)
    } else {
        Ok(rec)
    }
}

/// What the external bitstream parser made of one RPU, as handed to the
/// library by the host adapter. Parsing itself is host work: the external
/// parser can abort on hostile bytes, so the adapter runs it behind a panic
/// boundary and reports the outcome here; the library's validation and
/// error policy stay verified.
#[derive(Clone, Copy, Debug, PartialEq, Eq)]
pub enum ParsedRpu {
    /// The RPU parsed and carries the NLQ fields the algorithm consumes.
    Complete(RpuRecord),
    /// The RPU parsed but carries no NLQ mapping data; only its profile is
    /// known. A non-Profile-7 stream is reported as such, a Profile 7 RPU
    /// without NLQ data cannot drive the algorithm and counts as malformed.
    WithoutNlq(u8),
    /// The bytes did not parse as an RPU at all.
    Invalid,
}

/// Validation of one parse outcome: the record when it is complete and
/// passes the stream-level checks, otherwise the error that spells out what
/// was wrong with it.
pub open spec fn spec_entry_validated(e: ParsedRpu) -> Result<RpuRecord, NlqError> {
    match e {
        ParsedRpu::Complete(rec) => spec_validated(rec),
        ParsedRpu::WithoutNlq(profile) => if profile != 7 {
            Err(NlqError::UnsupportedProfile)
        } else {
            Err(NlqError::MalformedMetadata)
        },
        ParsedRpu::Invalid => Err(NlqError::MalformedMetadata),
    }
}

/// Validates one parse outcome, yielding the effective record or the error
/// owed for it.
pub fn validate_entry(e: &ParsedRpu) -> (r: Result<RpuRecord, NlqError>)
    ensures
        r == spec_entry_validated(*e),
{
    match e {
        ParsedRpu::Complete(rec) => match validate_rpu(rec) {
            Ok(()) => Ok(*rec),
            Err(err) => Err(err),
        },
        ParsedRpu::WithoutNlq(profile) => if *profile != 7 {
            Err(NlqError::UnsupportedProfile)
        } else {
            Err(NlqError::MalformedMetadata)
        },
        ParsedRpu::Invalid => Err(NlqError::MalformedMetadata),
    }
}

/// The per-stream reconstruction state: an optional precomputed list with
/// one parse outcome per output frame, indexed by frame number. The list is
/// built once and only read afterwards; a bad entry fails only its own
/// frame, never the whole list.
pub struct MapNLQ {
    /// `rpus[n]` is the parse outcome for frame `n`, when a list was
    /// supplied.
    pub rpus: Option<Vec<ParsedRpu>>,
}

impl MapNLQ {
    /// The record that applies to frame `n`, given the parse outcome of the
    /// metadata blob embedded in that frame (`None` when no blob was
    /// attached): the list entry when a list was supplied (an out-of-range
    /// index is an error, never a silent reuse of another entry), otherwise
    /// the embedded outcome; validated either way.
    pub open spec fn spec_resolve(self, n: int, embedded: Option<ParsedRpu>) -> Result<
        RpuRecord,
        NlqError,
    > {
        match self.rpus {
            Some(list) => if n < list@.len() {
                spec_entry_validated(list@[n])
            } else {
                Err(NlqError::IndexOutOfRange)
            },
            None => match embedded {
                Some(e) => spec_entry_validated(e),
                None => Err(NlqError::MissingMetadata),
            },
        }
    }

    /// Resolves and validates the RPU record for frame `n`.
    ///
    /// A supplied list takes precedence: its entry for `n` is used, and an
    /// index past its end fails with `IndexOutOfRange`. Without a list, the
    /// embedded parse outcome decides (`MalformedMetadata` when the bytes
    /// did not parse); with neither source, resolution fails with
    /// `MissingMetadata`. A resolved RPU whose profile is not 7, or which
    /// declares more than one NLQ pivot, is rejected; each failure is scoped
    /// to its own frame.
    pub fn resolve_rpu(&self, n: usize, embedded: Option<ParsedRpu>) -> (r: Result<
        RpuRecord,
        NlqError,
    >)
        ensures
            r == self.spec_resolve(n as int, embedded),
    {
        match &self.rpus {
            Some(list) => {
                if n < list.len() {
                    let e = list[n];
                    validate_entry(&e)
                } else {
                    Err(NlqError::IndexOutOfRange)
                }
            },
            None => match embedded {
                Some(e) => validate_entry(&e),
                None => Err(NlqError::MissingMetadata),
            },
        }
    }
}

} // verus!
