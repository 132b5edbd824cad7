use pipeline::export::{burn_dtype_to_hal, dtypes_compatible, validate_export};
use pipeline::formats::{DType, ElementType};
use pipeline::PipelineError;

#[test]
fn burn_dtypes_map_to_hal() {
    assert_eq!(burn_dtype_to_hal(ElementType::F32), DType::F32);
    assert_eq!(burn_dtype_to_hal(ElementType::F16), DType::F16);
    assert_eq!(burn_dtype_to_hal(ElementType::U8), DType::U8);
    assert_eq!(burn_dtype_to_hal(ElementType::I64), DType::I64);
    assert_eq!(burn_dtype_to_hal(ElementType::BF16), DType::F32);
    assert_eq!(burn_dtype_to_hal(ElementType::Bool(1)), DType::F32);
    assert_eq!(burn_dtype_to_hal(ElementType::QFloat), DType::F32);
}

#[test]
fn compatibility_needs_same_width_and_sign() {
    assert!(dtypes_compatible(ElementType::F32, DType::F32));
    assert!(dtypes_compatible(ElementType::Bool(1), DType::U8));
    assert!(!dtypes_compatible(ElementType::Bool(4), DType::U8));
    assert!(!dtypes_compatible(ElementType::Bool(4), DType::U32));
    assert!(!dtypes_compatible(ElementType::I8, DType::U8));
    assert!(!dtypes_compatible(ElementType::BF16, DType::F32));
    assert!(!dtypes_compatible(ElementType::F16, DType::F32));
}

#[test]
fn export_of_a_yolo_output() {
    let shape = [1usize, 84, 8400];
    let got = 84 * 8400 * 4;
    assert_eq!(validate_export(got, &shape, ElementType::F32, DType::F32).unwrap(), got);
    // Extra bytes are accepted.
    assert_eq!(validate_export(got + 4, &shape, ElementType::F32, DType::F32).unwrap(), got);
    // Half-precision output.
    assert_eq!(validate_export(84 * 8400 * 2, &shape, ElementType::F16, DType::F16).unwrap(), 84 * 8400 * 2);
}

#[test]
fn export_of_a_short_buffer() {
    match validate_export(6 * 4 - 1, &[2, 3], ElementType::F32, DType::F32) {
        Err(PipelineError::BufferShapeMismatch { got_bytes, need_bytes, shape, dtype }) => {
            assert_eq!((got_bytes, need_bytes), (23, 24));
            assert_eq!(shape, vec![2, 3]);
            assert_eq!(dtype, DType::F32);
        }
        other => panic!("unexpected {:?}", other),
    }
}

#[test]
fn export_with_mismatched_dtype() {
    match validate_export(6 * 4, &[2, 3], ElementType::I32, DType::F32) {
        Err(PipelineError::UnsupportedDType(DType::F32)) => {}
        other => panic!("unexpected {:?}", other),
    }
}

#[test]
fn export_byte_count_overflow() {
    match validate_export(1024, &[usize::MAX / 2, 3], ElementType::F32, DType::F32) {
        Err(PipelineError::BufferShapeMismatch { need_bytes, shape, .. }) => {
            assert_eq!(need_bytes, 0);
            assert_eq!(shape, vec![usize::MAX / 2, 3]);
        }
        other => panic!("unexpected {:?}", other),
    }
}

#[test]
fn export_element_count_overflow_before_a_zero() {
    // The running product leaves usize before the zero is reached, so the
    // element count saturates rather than becoming zero.
    match validate_export(1024, &[usize::MAX, 2, 0], ElementType::U8, DType::U8) {
        Err(PipelineError::BufferShapeMismatch { need_bytes, .. }) => assert_eq!(need_bytes, usize::MAX),
        other => panic!("unexpected {:?}", other),
    }
    // A zero first keeps the product at zero.
    assert_eq!(validate_export(0, &[0, usize::MAX, 2], ElementType::U8, DType::U8).unwrap(), 0);
}

#[test]
fn export_uses_the_hal_element_size() {
    assert_eq!(validate_export(1000, &[5], ElementType::U64, DType::U64).unwrap(), 40);
    assert_eq!(validate_export(1000, &[5], ElementType::I16, DType::I16).unwrap(), 10);
    assert_eq!(validate_export(1000, &[5], ElementType::Bool(1), DType::U8).unwrap(), 5);
    match validate_export(1000, &[5], ElementType::Bool(4), DType::U8) {
        Err(PipelineError::UnsupportedDType(DType::U8)) => {}
        other => panic!("unexpected {:?}", other),
    }
}

#[test]
fn mapped_dtype_passes_the_check_for_direct_types() {
    for t in [ElementType::F32, ElementType::F16, ElementType::F64, ElementType::I8, ElementType::U8,
              ElementType::I16, ElementType::U16, ElementType::I32, ElementType::U32, ElementType::I64, ElementType::U64] {
        assert!(dtypes_compatible(t, burn_dtype_to_hal(t)));
    }
    for t in [ElementType::Flex32, ElementType::BF16, ElementType::Bool(1), ElementType::QFloat] {
        assert!(!dtypes_compatible(t, burn_dtype_to_hal(t)));
    }
}
