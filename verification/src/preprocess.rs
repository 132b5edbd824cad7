//! Preprocessing configuration and the decisions that turn a HAL convert
//! target into a Burn input tensor.
//!
//! The HAL side letterboxes and converts a source image into the configured
//! format and dtype (normalizing pixels to `[0, 1]`); the Burn side receives
//! the converted buffer, either zero-copy (an IOSurface-backed target on
//! macOS Metal) or through a host upload.

use vstd::prelude::*;
use crate::error::PipelineError;
use crate::formats::{hal_channels, hal_element_size, DType, ElementType, PixelFormat, TensorMemory};
use crate::letterbox::{letterbox_region, letterbox_spec, LetterboxRegion};

verus! {

/// The YOLO-standard letterbox pad colour (grey, RGB 114, opaque).
pub const YOLO_PAD: [u8; 4] = [114, 114, 114, 255];

/// Configuration for preparing a model-input tensor from a HAL source image.
#[derive(Debug, Clone, Copy)]
pub struct PreprocessConfig {
    /// Model input width.
    pub width: usize,
    /// Model input height.
    pub height: usize,
    /// Destination pixel format. `PlanarRgb` matches Burn's NCHW layout.
    pub format: PixelFormat,
    /// Destination dtype: `F32` for an fp32 model, `F16` for an fp16 model.
    pub dtype: DType,
    /// Destination memory backend; `None` lets the HAL pick.
    pub memory: Option<TensorMemory>,
    /// Letterbox pad colour (RGBA).
    pub pad: [u8; 4],
}

/// The standard YOLO configuration of a `width`×`height` model input:
/// planar RGB, `F32`, HAL-chosen memory, YOLO pad colour.
pub open spec fn yolo_config(width: usize, height: usize) -> PreprocessConfig {
    PreprocessConfig {
        width,
        height,
        format: PixelFormat::PlanarRgb,
        dtype: DType::F32,
        memory: None,
        pad: YOLO_PAD,
    }
}

impl PreprocessConfig {
    /// Standard YOLO fp32 config: `PlanarRgb`, `F32`, HAL-chosen memory,
    /// YOLO pad colour.
    pub fn yolo(width: usize, height: usize) -> (c: Self)
        ensures
            c == yolo_config(width, height),
            c.width == width,
            c.height == height,
            c.format == PixelFormat::PlanarRgb,
            c.dtype == DType::F32,
            c.memory.is_none(),
            c.pad@ == seq![114u8, 114u8, 114u8, 255u8],
    {
        PreprocessConfig {
            width,
            height,
            format: PixelFormat::PlanarRgb,
            dtype: DType::F32,
            memory: None,
            pad: YOLO_PAD,
        }
    }

    /// Standard YOLO fp16 config: the same as [`Self::yolo`] but `F16`.
    pub fn yolo_f16(width: usize, height: usize) -> (c: Self)
        ensures
            c == (PreprocessConfig { dtype: DType::F16, ..yolo_config(width, height) }),
            c.width == width,
            c.height == height,
            c.format == PixelFormat::PlanarRgb,
            c.dtype == DType::F16,
            c.memory.is_none(),
            c.pad@ == seq![114u8, 114u8, 114u8, 255u8],
    {
        let mut c = Self::yolo(width, height);
        c.dtype = DType::F16;
        c
    }

    /// Request a specific destination memory backend.
    pub fn with_memory(self, memory: TensorMemory) -> (c: Self)
        ensures
            c == (PreprocessConfig { memory: Some(memory), ..self }),
    {
        PreprocessConfig { memory: Some(memory), ..self }
    }

    /// Override the destination pixel format.
    pub fn with_format(self, format: PixelFormat) -> (c: Self)
        ensures
            c == (PreprocessConfig { format, ..self }),
    {
        PreprocessConfig { format, ..self }
    }

    /// Override the destination dtype.
    pub fn with_dtype(self, dtype: DType) -> (c: Self)
        ensures
            c == (PreprocessConfig { dtype, ..self }),
    {
        PreprocessConfig { dtype, ..self }
    }

    /// Set the letterbox pad colour.
    pub fn with_pad(self, pad: [u8; 4]) -> (c: Self)
        ensures
            c == (PreprocessConfig { pad, ..self }),
    {
        PreprocessConfig { pad, ..self }
    }

    /// Number of channels of the configured format (3 for `PlanarRgb`).
    pub fn channels(&self) -> (n: usize)
        ensures
            n == self.format.spec_channels(),
    {
        hal_channels(self.format)
    }
}

/// Geometry captured during preprocessing, so that decoded boxes (in
/// model-input normalized space) can be mapped back to source pixels.
#[derive(Debug, Clone, Copy)]
pub struct LetterboxMeta {
    /// Normalized content region of the model input.
    pub letterbox: LetterboxRegion,
    /// Source image width in pixels.
    pub src_w: usize,
    /// Source image height in pixels.
    pub src_h: usize,
}

/// A source extent as observed on the HAL tensor, or the configured target
/// extent when the tensor does not report one.
pub open spec fn observed_or(observed: Option<usize>, fallback: usize) -> usize {
    match observed {
        Some(v) => v,
        None => fallback,
    }
}

/// The letterbox geometry of preprocessing a source whose HAL tensor reports
/// `src_width`×`src_height` (either may be unknown) into the target of `cfg`.
pub fn letterbox_meta(src_width: Option<usize>, src_height: Option<usize>, cfg: &PreprocessConfig) -> (m: LetterboxMeta)
    ensures
        m.src_w == observed_or(src_width, cfg.width),
        m.src_h == observed_or(src_height, cfg.height),
        src_width matches Some(w) ==> m.src_w == w,
        src_width is None ==> m.src_w == cfg.width,
        src_height matches Some(h) ==> m.src_h == h,
        src_height is None ==> m.src_h == cfg.height,
        m.letterbox == letterbox_spec(m.src_w, m.src_h, cfg.width, cfg.height),
{
    let src_w = match src_width {
        Some(w) => w,
        None => cfg.width,
    };
    let src_h = match src_height {
        Some(h) => h,
        None => cfg.height,
    };
    let letterbox = letterbox_region(src_w, src_h, cfg.width, cfg.height);
    LetterboxMeta { letterbox, src_w, src_h }
}

/// How the converted buffer reaches Burn.
#[derive(Debug, Clone, Copy, PartialEq, Eq, Structural)]
pub enum ImportPath {
    /// Import the platform-native buffer with no host copy.
    ZeroCopy,
    /// Read the buffer to host memory and upload it.
    Host,
}

/// Choose the import path: zero-copy only when this build can import
/// platform-native buffers and the convert target is one; the host fallback
/// otherwise.
pub fn select_import_path(dst_memory: TensorMemory, zero_copy_available: bool) -> (p: ImportPath)
    ensures
        p == (if zero_copy_available && dst_memory == TensorMemory::DmaBuf {
            ImportPath::ZeroCopy
        } else {
            ImportPath::Host
        }),
{
    if zero_copy_available && dst_memory == TensorMemory::DmaBuf {
        ImportPath::ZeroCopy
    } else {
        ImportPath::Host
    }
}

/// The host-fallback upload: an NCHW tensor of the configured size.
#[derive(Debug, Clone, Copy)]
pub struct HostImport {
    /// `[1, channels, height, width]`.
    pub shape: [usize; 4],
    /// Burn element type of the uploaded data.
    pub dtype: ElementType,
}

/// Plan the host-fallback upload of a convert target made with `cfg`. Only
/// float targets can be uploaded as a model input.
pub fn host_import_plan(cfg: &PreprocessConfig) -> (r: Result<HostImport, PipelineError>)
    ensures
        r is Ok <==> (cfg.dtype == DType::F32 || cfg.dtype == DType::F16),
        r matches Ok(h) ==> {
            &&& h.shape@ == seq![1usize, cfg.format.spec_channels() as usize, cfg.height, cfg.width]
            &&& h.dtype == (if cfg.dtype == DType::F32 { ElementType::F32 } else { ElementType::F16 })
        },
        r matches Err(e) ==> e == PipelineError::UnsupportedDType(cfg.dtype),
{
    let c = cfg.channels();
    let dtype = match cfg.dtype {
        DType::F32 => ElementType::F32,
        DType::F16 => ElementType::F16,
        other => return Err(PipelineError::UnsupportedDType(other)),
    };
    Ok(HostImport { shape: [1, c, cfg.height, cfg.width], dtype })
}

/// Check that a convert target of `dtype` can be read back to host bytes:
/// `F32`, `F16` and `U8` targets can.
pub fn check_host_readable(dtype: DType) -> (r: Result<(), PipelineError>)
    ensures
        r is Ok <==> (dtype == DType::F32 || dtype == DType::F16 || dtype == DType::U8),
        r matches Err(e) ==> e == PipelineError::UnsupportedDType(dtype),
{
    match dtype {
        DType::F32 | DType::F16 | DType::U8 => Ok(()),
        other => Err(PipelineError::UnsupportedDType(other)),
    }
}

/// The zero-copy import of an IOSurface-backed convert target. The surface
/// is always `PlanarRgb`/`F16`; the imported tensor is cast on the device to
/// the dtype the configuration asks for.
#[derive(Debug, Clone, Copy)]
pub struct ZeroCopyImport {
    /// Bytes of the surface that the import maps.
    pub byte_size: usize,
    /// `[1, channels, height, width]`.
    pub shape: [usize; 4],
    /// Element type of the imported surface.
    pub surface_dtype: ElementType,
    /// Element type the imported tensor is cast to: the Burn type of the
    /// configured dtype.
    pub cast_to: ElementType,
}

/// Byte size of an F16 surface with `channels` planes of `height`×`width`.
pub open spec fn f16_surface_bytes(channels: int, height: int, width: int) -> int {
    channels * height * width * DType::F16.spec_size()
}

/// Check that a convert target made with `cfg` can be imported zero-copy:
/// only planar RGB surfaces can.
pub fn check_zero_copy_format(cfg: &PreprocessConfig) -> (r: Result<(), PipelineError>)
    ensures
        r is Ok <==> cfg.format == PixelFormat::PlanarRgb,
        r matches Err(e) ==> e == PipelineError::UnsupportedDType(cfg.dtype),
{
    if cfg.format != PixelFormat::PlanarRgb {
        return Err(PipelineError::UnsupportedDType(cfg.dtype));
    }
    Ok(())
}

/// Plan the zero-copy import of a convert target made with `cfg`.
///
/// Fails with `UnsupportedDType(cfg.dtype)` unless the format is
/// `PlanarRgb`, then with `IoSurfaceUnavailable` when the target has no
/// surface.
pub fn zero_copy_plan(cfg: &PreprocessConfig, surface_available: bool) -> (r: Result<ZeroCopyImport, PipelineError>)
    requires
        cfg.format == PixelFormat::PlanarRgb && surface_available ==> {
            &&& 3 * cfg.height <= usize::MAX
            &&& f16_surface_bytes(3, cfg.height as int, cfg.width as int) <= usize::MAX
        },
    ensures
        r is Ok <==> (cfg.format == PixelFormat::PlanarRgb && surface_available),
        r matches Ok(z) ==> {
            &&& z.byte_size == f16_surface_bytes(3, cfg.height as int, cfg.width as int)
            &&& z.byte_size == 3 * cfg.height * cfg.width * 2
            &&& z.shape@ == seq![1usize, 3, cfg.height, cfg.width]
            &&& z.surface_dtype == ElementType::F16
            &&& z.cast_to == cfg.dtype.spec_to_burn()
        },
        r matches Err(e) ==> e == (if cfg.format != PixelFormat::PlanarRgb {
            PipelineError::UnsupportedDType(cfg.dtype)
        } else {
            PipelineError::IoSurfaceUnavailable
        }),
{
    check_zero_copy_format(cfg)?;
    if !surface_available {
        return Err(PipelineError::IoSurfaceUnavailable);
    }
    let c = cfg.channels();
    let elem_size = hal_element_size(DType::F16);
    proof {
        assert(c * cfg.height * cfg.width * elem_size == f16_surface_bytes(3, cfg.height as int, cfg.width as int));
        let ch = c * cfg.height;
        assert(ch * cfg.width <= ch * cfg.width * 2) by (nonlinear_arith)
            requires
                ch >= 0,
                cfg.width >= 0,
        ;
    }
    let byte_size = c * cfg.height * cfg.width * elem_size;
    Ok(ZeroCopyImport {
        byte_size,
        shape: [1, c, cfg.height, cfg.width],
        surface_dtype: ElementType::F16,
        cast_to: cfg.dtype.to_burn(),
    })
}

/// Law: the standard YOLO configuration of any size is planar RGB `F32`
/// with HAL-chosen memory and the grey `[114, 114, 114, 255]` pad.
pub proof fn lemma_yolo_config_is_standard(width: usize, height: usize)
    ensures
        yolo_config(width, height).width == width,
        yolo_config(width, height).height == height,
        yolo_config(width, height).format == PixelFormat::PlanarRgb,
        yolo_config(width, height).dtype == DType::F32,
        yolo_config(width, height).memory.is_none(),
        yolo_config(width, height).pad@ == seq![114u8, 114u8, 114u8, 255u8],
        YOLO_PAD@ == seq![114u8, 114u8, 114u8, 255u8],
{
    assert(YOLO_PAD@ =~= seq![114u8, 114u8, 114u8, 255u8]);
}

/// Law: a source extent the HAL tensor reports is kept as it is; only a
/// missing one falls back to the target extent.
pub proof fn lemma_observed_extent_is_kept(v: usize, fallback: usize)
    ensures
        observed_or(Some(v), fallback) == v,
        observed_or(None, fallback) == fallback,
{
}

/// Law: an F16 surface holds two bytes for each of its
/// `channels * height * width` elements.
pub proof fn lemma_f16_surface_bytes(channels: int, height: int, width: int)
    ensures
        f16_surface_bytes(channels, height, width) == channels * height * width * 2,
{
}

} // verus!
