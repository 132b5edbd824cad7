//! Element types, pixel formats and memory backings, as plain values.
//!
//! The HAL (`edgefirst-tensor`) and Burn describe tensors with their own enums;
//! the library holds the same vocabulary as enums of its own so that the
//! pipeline's decisions can be stated and proved over them.

use vstd::prelude::*;
use edgefirst_tensor as hal;

verus! {

/// Pixel format of an image tensor (the HAL pixel-format vocabulary).
#[derive(Debug, Clone, Copy, PartialEq, Eq, Structural)]
pub enum PixelFormat {
    /// Packed RGB `[H, W, 3]`.
    Rgb,
    /// Packed RGBA `[H, W, 4]`.
    Rgba,
    /// Packed BGRA `[H, W, 4]`.
    Bgra,
    /// Grayscale `[H, W, 1]`.
    Grey,
    /// Packed YUV 4:2:2, YUYV byte order.
    Yuyv,
    /// Packed YUV 4:2:2, VYUY byte order.
    Vyuy,
    /// Semi-planar YUV 4:2:0.
    Nv12,
    /// Semi-planar YUV 4:2:2.
    Nv16,
    /// Planar RGB, channels-first `[3, H, W]`.
    PlanarRgb,
    /// Planar RGBA, channels-first `[4, H, W]`.
    PlanarRgba,
    /// Semi-planar YUV 4:4:4.
    Nv24,
}

impl PixelFormat {
    /// Number of channels of the format, as the HAL documents it: the
    /// interleaved component count for packed formats, the plane count for
    /// planar ones, and 1 (the luma plane) for semi-planar ones.
    pub open spec fn spec_channels(self) -> nat {
        match self {
            PixelFormat::Rgb | PixelFormat::PlanarRgb => 3,
            PixelFormat::Rgba | PixelFormat::Bgra | PixelFormat::PlanarRgba => 4,
            PixelFormat::Grey | PixelFormat::Nv12 | PixelFormat::Nv16 | PixelFormat::Nv24 => 1,
            PixelFormat::Yuyv | PixelFormat::Vyuy => 2,
        }
    }
}

/// Channel count of `format`, as computed by the HAL.
///
/// Trusted: calls `edgefirst_tensor::PixelFormat::channels` on the HAL format
/// with the same name, and claims that it returns the count of
/// `PixelFormat::spec_channels`, as the HAL source's match shows.
#[verifier::external_body]
pub(crate) fn hal_channels(format: PixelFormat) -> (n: usize)
    ensures
        n == format.spec_channels(),
{
    let hal = match format {
        PixelFormat::Rgb => hal::PixelFormat::Rgb,
        PixelFormat::Rgba => hal::PixelFormat::Rgba,
        PixelFormat::Bgra => hal::PixelFormat::Bgra,
        PixelFormat::Grey => hal::PixelFormat::Grey,
        PixelFormat::Yuyv => hal::PixelFormat::Yuyv,
        PixelFormat::Vyuy => hal::PixelFormat::Vyuy,
        PixelFormat::Nv12 => hal::PixelFormat::Nv12,
        PixelFormat::Nv16 => hal::PixelFormat::Nv16,
        PixelFormat::PlanarRgb => hal::PixelFormat::PlanarRgb,
        PixelFormat::PlanarRgba => hal::PixelFormat::PlanarRgba,
        PixelFormat::Nv24 => hal::PixelFormat::Nv24,
    };
    hal.channels()
}

/// Element type of a HAL tensor.
#[derive(Debug, Clone, Copy, PartialEq, Eq, Structural)]
pub enum DType {
    U8,
    I8,
    U16,
    I16,
    U32,
    I32,
    U64,
    I64,
    F16,
    F32,
    F64,
}

impl DType {
    /// Size of one element in bytes, as the HAL documents it.
    pub open spec fn spec_size(self) -> nat {
        match self {
            DType::U8 | DType::I8 => 1,
            DType::U16 | DType::I16 | DType::F16 => 2,
            DType::U32 | DType::I32 | DType::F32 => 4,
            DType::U64 | DType::I64 | DType::F64 => 8,
        }
    }
}

/// Element size of `dtype` in bytes, as computed by the HAL.
///
/// Trusted: calls `edgefirst_tensor::DType::size` on the HAL dtype with the
/// same name, and claims that it returns `DType::spec_size`, as the HAL
/// source's match shows.
#[verifier::external_body]
pub(crate) fn hal_element_size(dtype: DType) -> (n: usize)
    ensures
        n == dtype.spec_size(),
{
    let hal = match dtype {
        DType::U8 => hal::DType::U8,
        DType::I8 => hal::DType::I8,
        DType::U16 => hal::DType::U16,
        DType::I16 => hal::DType::I16,
        DType::U32 => hal::DType::U32,
        DType::I32 => hal::DType::I32,
        DType::U64 => hal::DType::U64,
        DType::I64 => hal::DType::I64,
        DType::F16 => hal::DType::F16,
        DType::F32 => hal::DType::F32,
        DType::F64 => hal::DType::F64,
    };
    hal.size()
}

/// Memory backing of a HAL tensor.
#[derive(Debug, Clone, Copy, PartialEq, Eq, Structural)]
pub enum TensorMemory {
    /// Regular system memory.
    Mem,
    /// POSIX shared memory.
    Shm,
    /// Platform-native zero-copy GPU buffer (DMA-BUF on Linux, IOSurface on
    /// macOS).
    DmaBuf,
    /// Apple IOSurface, named specifically.
    IoSurface,
    /// OpenGL pixel buffer object.
    Pbo,
    /// CUDA device memory.
    Cuda,
    /// Windows D3D11 texture.
    D3d11Texture,
}

/// Element type of a Burn tensor.
#[derive(Debug, Clone, Copy, PartialEq, Eq, Structural)]
pub enum ElementType {
    F64,
    F32,
    Flex32,
    F16,
    BF16,
    I64,
    I32,
    I16,
    I8,
    U64,
    U32,
    U16,
    U8,
    /// Booleans, stored in elements of the given width in bytes.
    Bool(usize),
    QFloat,
}

/// Numeric class of an element type.
#[derive(Debug, Clone, Copy, PartialEq, Eq, Structural)]
pub enum NumClass {
    Float,
    Signed,
    Unsigned,
}

impl DType {
    /// Numeric class of the HAL element type.
    pub open spec fn spec_class(self) -> NumClass {
        match self {
            DType::F16 | DType::F32 | DType::F64 => NumClass::Float,
            DType::I8 | DType::I16 | DType::I32 | DType::I64 => NumClass::Signed,
            _ => NumClass::Unsigned,
        }
    }

    /// The Burn element type with the same layout.
    pub open spec fn spec_to_burn(self) -> ElementType {
        match self {
            DType::U8 => ElementType::U8,
            DType::I8 => ElementType::I8,
            DType::U16 => ElementType::U16,
            DType::I16 => ElementType::I16,
            DType::U32 => ElementType::U32,
            DType::I32 => ElementType::I32,
            DType::U64 => ElementType::U64,
            DType::I64 => ElementType::I64,
            DType::F16 => ElementType::F16,
            DType::F32 => ElementType::F32,
            DType::F64 => ElementType::F64,
        }
    }

    /// The Burn element type with the same layout.
    pub fn to_burn(self) -> (t: ElementType)
        ensures
            t == self.spec_to_burn(),
    {
        match self {
            DType::U8 => ElementType::U8,
            DType::I8 => ElementType::I8,
            DType::U16 => ElementType::U16,
            DType::I16 => ElementType::I16,
            DType::U32 => ElementType::U32,
            DType::I32 => ElementType::I32,
            DType::U64 => ElementType::U64,
            DType::I64 => ElementType::I64,
            DType::F16 => ElementType::F16,
            DType::F32 => ElementType::F32,
            DType::F64 => ElementType::F64,
        }
    }
}

impl ElementType {
    /// Width of one stored element in bytes; `None` for quantized tensors,
    /// whose storage is not one element per value.
    pub open spec fn spec_width(self) -> Option<nat> {
        match self {
            ElementType::F64 | ElementType::I64 | ElementType::U64 => Some(8),
            ElementType::F32 | ElementType::Flex32 | ElementType::I32 | ElementType::U32 => Some(4),
            ElementType::F16 | ElementType::BF16 | ElementType::I16 | ElementType::U16 => Some(2),
            ElementType::I8 | ElementType::U8 => Some(1),
            ElementType::Bool(w) => Some(w as nat),
            ElementType::QFloat => None,
        }
    }

    /// Numeric class of the stored elements (booleans are stored unsigned).
    pub open spec fn spec_class(self) -> NumClass {
        match self {
            ElementType::F64 | ElementType::F32 | ElementType::Flex32 | ElementType::F16
            | ElementType::BF16 | ElementType::QFloat => NumClass::Float,
            ElementType::I64 | ElementType::I32 | ElementType::I16 | ElementType::I8 => NumClass::Signed,
            _ => NumClass::Unsigned,
        }
    }
}

} // verus!
