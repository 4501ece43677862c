//! Output format declaration and whole-frame assembly.
//!
//! The output stream keeps the BL clip's resolution, frame count and frame
//! rate, and carries integer YUV samples in a 12-bit-per-sample container
//! with the EL clip's sample type and chroma subsampling. Frame assembly
//! runs the per-pixel transformation over all three planes and fills every
//! output sample, so the new frame is completely written before it is handed
//! to the caller.

use vstd::prelude::*;

use crate::error::NlqError;
use crate::rpu::{RpuRecord, valid_record};
use crate::coefficients::FixedPointCoefficients;
use crate::nlq::{spec_plane, reconstruct_plane};

verus! {

/// How samples are represented in a clip.
#[derive(Clone, Copy, Debug, PartialEq, Eq, Structural)]
pub enum SampleKind {
    /// Integer samples; the only representation the algorithm supports.
    Integer,
    /// Floating-point samples; a rejected input, not a supported path.
    Float,
}

/// The color family of a clip.
#[derive(Clone, Copy, Debug, PartialEq, Eq, Structural)]
pub enum ColorFamily {
    Gray,
    Rgb,
    Yuv,
}

/// A clip's pixel format: sample representation, per-sample container width
/// and chroma subsampling.
#[derive(Clone, Copy, Debug, PartialEq, Eq, Structural)]
pub struct VideoFormat {
    pub color_family: ColorFamily,
    pub sample_kind: SampleKind,
    pub bits_per_sample: u8,
    pub sub_sampling_w: u8,
    pub sub_sampling_h: u8,
}

/// A clip's frame geometry and timing.
#[derive(Clone, Copy, Debug, PartialEq, Eq, Structural)]
pub struct VideoInfo {
    pub format: VideoFormat,
    pub width: u32,
    pub height: u32,
    pub framerate_num: u64,
    pub framerate_den: u64,
    pub num_frames: u32,
    pub flags: i32,
}

/// The output pixel format for a given EL format: integer YUV in a
/// 12-bit-per-sample container, keeping the EL clip's chroma subsampling.
/// The sample kind is always `Integer`, whatever the inputs carry.
///
/// The container width is a fixed interoperability choice: samples are
/// computed and clamped to the RPU-declared output bit depth, which the
/// per-pixel formula derives per frame and which may differ from 12.
pub open spec fn spec_output_format(el_format: VideoFormat) -> VideoFormat {
    VideoFormat {
        color_family: ColorFamily::Yuv,
        sample_kind: SampleKind::Integer,
        bits_per_sample: 12,
        sub_sampling_w: el_format.sub_sampling_w,
        sub_sampling_h: el_format.sub_sampling_h,
    }
}

/// One frame's pixel data: three row-major sample planes under a declared
/// format.
pub struct Frame {
    pub format: VideoFormat,
    pub planes: [Vec<u16>; 3],
}

/// The video properties the output stream declares: geometry, timing and
/// flags taken from the BL clip, the format forced to integer YUV in a
/// 12-bit container with the EL clip's chroma subsampling.
pub fn output_video_info(bl: &VideoInfo, el_format: &VideoFormat) -> (o: VideoInfo)
    ensures
        o.format == spec_output_format(*el_format),
        o.width == bl.width,
        o.height == bl.height,
        o.framerate_num == bl.framerate_num,
        o.framerate_den == bl.framerate_den,
        o.num_frames == bl.num_frames,
        o.flags == bl.flags,
{
    VideoInfo {
        format: VideoFormat {
            color_family: ColorFamily::Yuv,
            sample_kind: SampleKind::Integer,
            bits_per_sample: 12,
            sub_sampling_w: el_format.sub_sampling_w,
            sub_sampling_h: el_format.sub_sampling_h,
        },
        width: bl.width,
        height: bl.height,
        framerate_num: bl.framerate_num,
        framerate_den: bl.framerate_den,
        num_frames: bl.num_frames,
        flags: bl.flags,
    }
}

/// Assembles one output frame from a BL frame, an EL frame and a valid RPU
/// record: derives the fixed-point coefficients once, reconstructs the three
/// planes pixel by pixel, and declares the output format. A floating-point
/// BL or EL clip is rejected with `UnsupportedSampleFormat`; nothing else
/// fails. Every sample of every output plane is written.
pub fn reconstruct_frame(bl: &Frame, el: &Frame, r: &RpuRecord) -> (out: Result<Frame, NlqError>)
    requires
        valid_record(*r),
        forall|p: int| 0 <= p < 3 ==> #[trigger] bl.planes[p]@.len() == el.planes[p]@.len(),
    ensures
        match out {
            Ok(f) => {
                &&& bl.format.sample_kind == SampleKind::Integer
                &&& el.format.sample_kind == SampleKind::Integer
                &&& f.format == spec_output_format(el.format)
                &&& forall|p: int|
                    0 <= p < 3 ==> #[trigger] f.planes[p]@ == spec_plane(
                        bl.planes[p]@,
                        el.planes[p]@,
                        *r,
                        p,
                    )
            },
            Err(e) => {
                &&& e == NlqError::UnsupportedSampleFormat
                &&& (bl.format.sample_kind == SampleKind::Float || el.format.sample_kind
                    == SampleKind::Float)
            },
        },
{
    if bl.format.sample_kind == SampleKind::Float || el.format.sample_kind == SampleKind::Float {
        return Err(NlqError::UnsupportedSampleFormat);
    }
    let c: FixedPointCoefficients = crate::coefficients::derive(r);
    let p0 = reconstruct_plane(&bl.planes[0], &el.planes[0], 0, r, &c);
    let p1 = reconstruct_plane(&bl.planes[1], &el.planes[1], 1, r, &c);
    let p2 = reconstruct_plane(&bl.planes[2], &el.planes[2], 2, r, &c);
    let f = Frame {
        format: VideoFormat {
            color_family: ColorFamily::Yuv,
            sample_kind: SampleKind::Integer,
            bits_per_sample: 12,
            sub_sampling_w: el.format.sub_sampling_w,
            sub_sampling_h: el.format.sub_sampling_h,
        },
        planes: [p0, p1, p2],
    };
    assert forall|p: int| 0 <= p < 3 implies #[trigger] f.planes[p]@ == spec_plane(
        bl.planes[p]@,
        el.planes[p]@,
        *r,
        p,
    ) by {
        assert(p == 0 || p == 1 || p == 2);
    }
    Ok(f)
}

/// The raw RPU payload carried forward into the output frame's metadata:
/// what the output inherited is kept when present, otherwise the EL frame's
/// payload is copied in, preserving provenance for downstream stages.
pub fn propagate_rpu_payload(existing: Option<Vec<u8>>, el_payload: Vec<u8>) -> (out: Vec<u8>)
    ensures
        out@ == match existing {
            Some(v) => v@,
            None => el_payload@,
        },
{
    match existing {
        Some(v) => v,
        None => el_payload,
    }
}

} // verus!
