//! The library's error type.

use vstd::prelude::*;
use crate::formats::DType;

verus! {

#[verifier::external_type_specification]
#[verifier::external_body]
pub struct ExHalTensorError(edgefirst_tensor::Error);

#[verifier::external_type_specification]
#[verifier::external_body]
pub struct ExHalImageError(edgefirst_image::Error);

#[verifier::external_type_specification]
#[verifier::external_body]
pub struct ExHalDecoderError(edgefirst_decoder::DecoderError);

#[verifier::external_type_specification]
#[verifier::external_body]
pub struct ExHalCodecError(edgefirst_codec::CodecError);

/// Errors returned by the pipeline.
#[derive(Debug)]
pub enum PipelineError {
    /// An `edgefirst-tensor` operation failed.
    HalTensor(edgefirst_tensor::Error),
    /// An `edgefirst-image` operation failed.
    HalImage(edgefirst_image::Error),
    /// An `edgefirst-decoder` operation failed.
    HalDecoder(edgefirst_decoder::DecoderError),
    /// An `edgefirst-codec` operation failed.
    HalCodec(edgefirst_codec::CodecError),
    /// The import or export path met a dtype it cannot convert.
    UnsupportedDType(DType),
    /// Zero-copy IOSurface import was requested but is not available in this
    /// build or on this platform.
    IoSurfaceUnavailable,
    /// A host buffer cannot hold a tensor of the given shape and dtype.
    BufferShapeMismatch { got_bytes: usize, need_bytes: usize, shape: Vec<usize>, dtype: DType },
}

/// Shorthand `Result` for this crate.
pub type Result<T> = core::result::Result<T, PipelineError>;

} // verus!
