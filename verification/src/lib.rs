//! Dual-layer Dolby Vision Profile 7 reconstruction: combines a base-layer
//! (BL) image with a non-linearly quantized enhancement-layer (EL) image,
//! guided by per-frame reshaping metadata (RPU), to recover full-bit-depth
//! HDR pixel values.
//!
//! The library covers the verified core: RPU selection and validation for a
//! frame index, derivation of fixed-point reconstruction coefficients from
//! RPU fields, the per-pixel inverse-quantization and blend formula, and
//! plane/frame assembly. Host plumbing (frame fetching, plugin registration,
//! file I/O) lives outside the library.

pub mod error;
pub mod rpu;
pub mod coefficients;
pub mod nlq;
pub mod frame;

pub use error::NlqError;
pub use rpu::{MapNLQ, ParsedRpu, RpuRecord};
pub use coefficients::FixedPointCoefficients;
pub use frame::{Frame, VideoFormat, VideoInfo, SampleKind, ColorFamily};
