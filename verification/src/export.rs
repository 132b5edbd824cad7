//! Export of a Burn output tensor to a HAL host tensor: the dtype mapping and
//! the checks that the host bytes can be read as a HAL tensor of the
//! requested shape.
//!
//! The output path is host-side by design: the HAL's YOLO decoder and NMS run
//! on host memory, so the model output is pulled to the host once per frame.

use vstd::prelude::*;
use crate::error::PipelineError;
use crate::formats::{hal_element_size, DType, ElementType};

verus! {

/// The HAL dtype that a Burn element type maps to. Types without a direct
/// HAL equivalent (`Flex32`, `BF16`, `Bool`, `QFloat`) map to `F32`.
pub open spec fn spec_burn_dtype_to_hal(t: ElementType) -> DType {
    match t {
        ElementType::F32 => DType::F32,
        ElementType::F16 => DType::F16,
        ElementType::F64 => DType::F64,
        ElementType::I8 => DType::I8,
        ElementType::U8 => DType::U8,
        ElementType::I16 => DType::I16,
        ElementType::U16 => DType::U16,
        ElementType::I32 => DType::I32,
        ElementType::U32 => DType::U32,
        ElementType::I64 => DType::I64,
        ElementType::U64 => DType::U64,
        _ => DType::F32,
    }
}

/// Whether Burn bytes of element type `b` can be reinterpreted, byte for
/// byte, as HAL elements of `h`: same width and signedness (booleans stored
/// in single bytes read as `U8`).
pub open spec fn spec_dtypes_compatible(b: ElementType, h: DType) -> bool {
    match h {
        DType::F32 => b == ElementType::F32,
        DType::F16 => b == ElementType::F16,
        DType::F64 => b == ElementType::F64,
        DType::I8 => b == ElementType::I8,
        DType::U8 => b == ElementType::U8 || b == ElementType::Bool(1),
        DType::I16 => b == ElementType::I16,
        DType::U16 => b == ElementType::U16,
        DType::I32 => b == ElementType::I32,
        DType::U32 => b == ElementType::U32,
        DType::I64 => b == ElementType::I64,
        DType::U64 => b == ElementType::U64,
    }
}

/// Whether a Burn element type has a HAL element type of the same layout.
pub open spec fn has_direct_hal_dtype(t: ElementType) -> bool {
    !(t == ElementType::Flex32 || t == ElementType::BF16 || t is Bool || t == ElementType::QFloat)
}

/// Law: exporting with the dtype that `burn_dtype_to_hal` picks passes the
/// dtype check exactly for Burn types with a direct HAL equivalent; `Flex32`,
/// `BF16`, `Bool` and `QFloat` tensors must be cast before export.
pub proof fn lemma_mapped_dtype_is_compatible(t: ElementType)
    ensures
        spec_dtypes_compatible(t, spec_burn_dtype_to_hal(t)) <==> has_direct_hal_dtype(t),
{
}

/// Law: the HAL dtype a Burn type may be read as is the one
/// `burn_dtype_to_hal` maps it to, except for one-byte booleans, read as
/// bytes.
pub proof fn lemma_compatible_dtype_is_the_mapped_one(b: ElementType, h: DType)
    requires
        spec_dtypes_compatible(b, h),
    ensures
        b is Bool ==> b == ElementType::Bool(1) && h == DType::U8,
        !(b is Bool) ==> h == spec_burn_dtype_to_hal(b),
{
}

/// Law: a compatible pairing is byte-for-byte sound: both sides have the
/// same element width and the same numeric class.
pub proof fn lemma_compatible_dtypes_share_layout(b: ElementType, h: DType)
    requires
        spec_dtypes_compatible(b, h),
    ensures
        b.spec_width() == Some(h.spec_size()),
        b.spec_class() == h.spec_class(),
{
}

/// Convert a Burn element type to the matching HAL dtype.
pub fn burn_dtype_to_hal(t: ElementType) -> (d: DType)
    ensures
        d == spec_burn_dtype_to_hal(t),
{
    match t {
        ElementType::F32 => DType::F32,
        ElementType::F16 => DType::F16,
        ElementType::F64 => DType::F64,
        ElementType::I8 => DType::I8,
        ElementType::U8 => DType::U8,
        ElementType::I16 => DType::I16,
        ElementType::U16 => DType::U16,
        ElementType::I32 => DType::I32,
        ElementType::U32 => DType::U32,
        ElementType::I64 => DType::I64,
        ElementType::U64 => DType::U64,
        _ => DType::F32,
    }
}

/// Whether reinterpreting Burn's `b` bytes as HAL `h` elements is sound.
pub fn dtypes_compatible(b: ElementType, h: DType) -> (ok: bool)
    ensures
        ok == spec_dtypes_compatible(b, h),
{
    match h {
        DType::F32 => b == ElementType::F32,
        DType::F16 => b == ElementType::F16,
        DType::F64 => b == ElementType::F64,
        DType::I8 => b == ElementType::I8,
        DType::U8 => b == ElementType::U8 || b == ElementType::Bool(1),
        DType::I16 => b == ElementType::I16,
        DType::U16 => b == ElementType::U16,
        DType::I32 => b == ElementType::I32,
        DType::U32 => b == ElementType::U32,
        DType::I64 => b == ElementType::I64,
        DType::U64 => b == ElementType::U64,
    }
}

/// The element count of `shape`, multiplied out from the left, or `None`
/// when some running product leaves `usize`.
pub open spec fn checked_product(shape: Seq<usize>) -> Option<nat>
    decreases shape.len(),
{
    if shape.len() == 0 {
        Some(1)
    } else {
        match checked_product(shape.drop_last()) {
            Some(p) => if p * shape.last() <= usize::MAX {
                Some((p * shape.last()) as nat)
            } else {
                None
            },
            None => None,
        }
    }
}

/// Bytes needed to hold `shape` elements of `dtype`: the element count times
/// the element size, where an element count that leaves `usize` counts as
/// `usize::MAX`; `None` when the byte count leaves `usize`.
pub open spec fn required_bytes(shape: Seq<usize>, dtype: DType) -> Option<nat> {
    let elems: nat = match checked_product(shape) {
        Some(p) => p,
        None => usize::MAX as nat,
    };
    if elems * dtype.spec_size() <= usize::MAX {
        Some(elems * dtype.spec_size())
    } else {
        None
    }
}

/// The product of all dimensions of `shape`, in unbounded arithmetic.
pub open spec fn seq_product(shape: Seq<usize>) -> nat
    decreases shape.len(),
{
    if shape.len() == 0 {
        1
    } else {
        seq_product(shape.drop_last()) * (shape.last() as nat)
    }
}

/// Every running product of `shape`, from the left, fits in `usize`.
pub open spec fn prefix_products_fit(shape: Seq<usize>) -> bool {
    forall|i: int| 0 <= i <= shape.len() ==> #[trigger] seq_product(shape.take(i)) <= usize::MAX
}

/// Law: the checked element count is the product of every dimension while
/// each running product fits in `usize`, and absent otherwise.
pub proof fn lemma_checked_product_is_product(shape: Seq<usize>)
    ensures
        checked_product(shape) == (if prefix_products_fit(shape) {
            Some(seq_product(shape))
        } else {
            None::<nat>
        }),
    decreases shape.len(),
{
    assert(shape.take(shape.len() as int) =~= shape);
    if shape.len() == 0 {
        assert forall|i: int| 0 <= i <= shape.len() implies #[trigger] seq_product(shape.take(i)) <= usize::MAX by {
            assert(shape.take(i) =~= Seq::<usize>::empty());
        }
    } else {
        let init = shape.drop_last();
        lemma_checked_product_is_product(init);
        assert forall|i: int| 0 <= i <= init.len() implies #[trigger] init.take(i) == shape.take(i) by {
            assert(init.take(i) =~= shape.take(i));
        }
        if prefix_products_fit(shape) {
            assert forall|i: int| 0 <= i <= init.len() implies #[trigger] seq_product(init.take(i)) <= usize::MAX by {
                assert(init.take(i) == shape.take(i));
                assert(seq_product(shape.take(i)) <= usize::MAX);
            }
            assert(seq_product(shape.take(shape.len() as int)) <= usize::MAX);
        } else {
            let i = choose|i: int| 0 <= i <= shape.len() && !(#[trigger] seq_product(shape.take(i)) <= usize::MAX);
            if i < shape.len() {
                assert(init.take(i) == shape.take(i));
                assert(!prefix_products_fit(init));
            } else {
                assert(shape.take(i) =~= shape);
                if prefix_products_fit(init) {
                    assert(init.take(init.len() as int) =~= init);
                    assert(seq_product(init.take(init.len() as int)) <= usize::MAX);
                }
            }
        }
    }
}

/// Law: appending a dimension multiplies the checked element count by it,
/// while the product fits.
pub proof fn lemma_checked_product_push(shape: Seq<usize>, k: usize)
    ensures
        checked_product(shape) matches Some(p) ==> checked_product(shape.push(k)) == (if p * k <= usize::MAX {
            Some((p * k) as nat)
        } else {
            None::<nat>
        }),
        checked_product(shape) is None ==> checked_product(shape.push(k)) is None,
{
    assert(shape.push(k).drop_last() =~= shape);
}

/// Law: the bytes an export needs are every dimension multiplied together
/// times the element size; an element count that leaves `usize` counts as
/// `usize::MAX`.
pub proof fn lemma_required_bytes_is_product(shape: Seq<usize>, dtype: DType)
    ensures
        ({
            let elems: nat = if prefix_products_fit(shape) { seq_product(shape) } else { usize::MAX as nat };
            required_bytes(shape, dtype) == (if elems * dtype.spec_size() <= usize::MAX {
                Some(elems * dtype.spec_size())
            } else {
                None::<nat>
            })
        }),
{
    lemma_checked_product_is_product(shape);
}

/// Whether `e` reports a buffer of `got` bytes that cannot hold `shape`
/// elements of `dtype`, needing `need` bytes.
pub open spec fn is_shape_mismatch(e: PipelineError, got: usize, need: nat, shape: Seq<usize>, dtype: DType) -> bool {
    &&& e matches PipelineError::BufferShapeMismatch { got_bytes, need_bytes, shape: s, dtype: d }
    &&& got_bytes == got
    &&& need_bytes == need
    &&& s@ == shape
    &&& d == dtype
}

/// Check that `got_bytes` host bytes of Burn element type `burn_dtype` can
/// be read as a HAL tensor of `shape` and `dtype`, and return the number of
/// bytes that tensor takes.
///
/// Fails with `BufferShapeMismatch` (needing 0 bytes) when the byte count
/// does not fit in `usize`, then with `BufferShapeMismatch` when the buffer
/// is too short, then with `UnsupportedDType(dtype)` when the element types
/// differ.
pub fn validate_export(got_bytes: usize, shape: &[usize], burn_dtype: ElementType, dtype: DType) -> (r: Result<usize, PipelineError>)
    ensures
        match required_bytes(shape@, dtype) {
            None => r matches Err(e) && is_shape_mismatch(e, got_bytes, 0, shape@, dtype),
            Some(need) => if got_bytes < need {
                r matches Err(e) && is_shape_mismatch(e, got_bytes, need, shape@, dtype)
            } else if !spec_dtypes_compatible(burn_dtype, dtype) {
                r matches Err(e) && e == PipelineError::UnsupportedDType(dtype)
            } else {
                r == Ok::<usize, PipelineError>(need as usize)
            },
        },
        r matches Ok(n) ==> spec_dtypes_compatible(burn_dtype, dtype) && got_bytes >= n && (
            (prefix_products_fit(shape@) && n == seq_product(shape@) * dtype.spec_size())
            || (!prefix_products_fit(shape@) && n == usize::MAX as nat * dtype.spec_size())),
{
    proof {
        lemma_checked_product_is_product(shape@);
    }
    let mut elems: usize = 1;
    let mut overflow = false;
    let mut i: usize = 0;
    while i < shape.len()
        invariant
            i <= shape@.len(),
            overflow ==> checked_product(shape@.take(i as int)) is None,
            !overflow ==> checked_product(shape@.take(i as int)) == Some(elems as nat),
        decreases shape@.len() - i,
    {
        assert(shape@.take(i + 1).drop_last() =~= shape@.take(i as int));
        assert(shape@.take(i + 1).last() == shape@[i as int]);
        if !overflow {
            match elems.checked_mul(shape[i]) {
                Some(v) => {
                    elems = v;
                },
                None => {
                    overflow = true;
                },
            }
        }
        i += 1;
    }
    assert(shape@.take(shape@.len() as int) =~= shape@);
    if overflow {
        elems = usize::MAX;
    }
    let size = hal_element_size(dtype);
    let need = match elems.checked_mul(size) {
        Some(n) => n,
        None => {
            return Err(PipelineError::BufferShapeMismatch {
                got_bytes,
                need_bytes: 0,
                shape: vstd::slice::slice_to_vec(shape),
                dtype,
            });
        },
    };
    if got_bytes < need {
        return Err(PipelineError::BufferShapeMismatch {
            got_bytes,
            need_bytes: need,
            shape: vstd::slice::slice_to_vec(shape),
            dtype,
        });
    }
    if !dtypes_compatible(burn_dtype, dtype) {
        return Err(PipelineError::UnsupportedDType(dtype));
    }
    Ok(need)
}

/// Law: the Burn type a HAL dtype is cast or uploaded as has the same
/// element width and class, maps back to that dtype, and may be read as it.
pub proof fn lemma_hal_dtype_to_burn_round_trip(d: DType)
    ensures
        spec_burn_dtype_to_hal(d.spec_to_burn()) == d,
        spec_dtypes_compatible(d.spec_to_burn(), d),
        d.spec_to_burn().spec_width() == Some(d.spec_size()),
        d.spec_to_burn().spec_class() == d.spec_class(),
{
}

} // verus!
