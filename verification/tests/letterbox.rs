use pipeline::letterbox::{letterbox_region, LetterboxRegion, PadAxis};

/// The region as `[x_min, y_min, x_max, y_max]` in `f32`.
fn as_f32(r: &LetterboxRegion) -> [f32; 4] {
    let den = r.content_den as f64;
    let num = r.content_num as f64;
    let lo = ((den - num) / (2.0 * den)) as f32;
    let hi = ((den + num) / (2.0 * den)) as f32;
    match r.padding {
        PadAxis::Unpadded => [0.0, 0.0, 1.0, 1.0],
        PadAxis::Vertical => [0.0, lo, 1.0, hi],
        PadAxis::Horizontal => [lo, 0.0, hi, 1.0],
    }
}

#[test]
fn letterbox_region_wide_source() {
    // Source 1920x1080 into 640x640: width-limited, height shrinks.
    let r = as_f32(&letterbox_region(1920, 1080, 640, 640));
    assert!((r[0] - 0.0).abs() < 1e-4);
    assert!((r[2] - 1.0).abs() < 1e-4);
    assert!((r[1] - (1.0 - r[3])).abs() < 1e-3, "top/bottom not centred");
}

#[test]
fn letterbox_region_tall_source() {
    // Source 1080x1920 into 640x640: height-limited, width shrinks.
    let r = as_f32(&letterbox_region(1080, 1920, 640, 640));
    assert!((r[1] - 0.0).abs() < 1e-4);
    assert!((r[3] - 1.0).abs() < 1e-4);
    assert!((r[0] - (1.0 - r[2])).abs() < 1e-3);
}

#[test]
fn letterbox_region_square() {
    // Square source into same-shape target: no padding.
    let r = as_f32(&letterbox_region(640, 640, 640, 640));
    assert!((r[0] - 0.0).abs() < 1e-4);
    assert!((r[1] - 0.0).abs() < 1e-4);
    assert!((r[2] - 1.0).abs() < 1e-4);
    assert!((r[3] - 1.0).abs() < 1e-4);
}

#[test]
fn letterbox_wide_source_exact_extent() {
    // 16:9 into a square: the content covers 9/16 of the height.
    let r = letterbox_region(1920, 1080, 640, 640);
    assert_eq!(r.padding, PadAxis::Vertical);
    assert_eq!(r.content_num * 16, r.content_den * 9);
    let f = as_f32(&r);
    assert!((f[1] - 0.21875).abs() < 1e-6);
    assert!((f[3] - 0.78125).abs() < 1e-6);
}

#[test]
fn letterbox_tall_source_exact_extent() {
    let r = letterbox_region(1080, 1920, 640, 640);
    assert_eq!(r.padding, PadAxis::Horizontal);
    assert_eq!(r.content_num * 16, r.content_den * 9);
    let f = as_f32(&r);
    assert!((f[0] - 0.21875).abs() < 1e-6);
    assert!((f[2] - 0.78125).abs() < 1e-6);
}

#[test]
fn letterbox_degenerate_dimensions_are_full() {
    for (sw, sh, dw, dh) in [(0, 10, 640, 640), (10, 0, 640, 640), (10, 10, 0, 640), (10, 10, 640, 0)] {
        let r = letterbox_region(sw, sh, dw, dh);
        assert_eq!(as_f32(&r), [0.0, 0.0, 1.0, 1.0]);
    }
}

#[test]
fn letterbox_transpose_swaps_axes() {
    let r = as_f32(&letterbox_region(320, 240, 64, 48 * 2));
    let t = as_f32(&letterbox_region(240, 320, 48 * 2, 64));
    assert_eq!([r[0], r[1], r[2], r[3]], [t[1], t[0], t[3], t[2]]);
}

#[test]
fn letterbox_keeps_source_aspect() {
    // 320x240 (4:3) into 64x64: content is 64 x 48 pixels.
    let r = as_f32(&letterbox_region(320, 240, 64, 64));
    let w = (r[2] - r[0]) * 64.0;
    let h = (r[3] - r[1]) * 64.0;
    assert!((w - 64.0).abs() < 1e-4);
    assert!((h - 48.0).abs() < 1e-4);
}

#[test]
fn letterbox_huge_dimensions_do_not_overflow() {
    let r = letterbox_region(usize::MAX, 1, usize::MAX, usize::MAX);
    assert_eq!(r.padding, PadAxis::Vertical);
    assert_eq!(r.content_num, usize::MAX as u128);
    assert_eq!(r.content_den, (usize::MAX as u128) * (usize::MAX as u128));
}

#[test]
fn letterbox_depends_only_on_source_aspect() {
    let a = as_f32(&letterbox_region(1920, 1080, 640, 480));
    let b = as_f32(&letterbox_region(16, 9, 640, 480));
    for i in 0..4 {
        assert!((a[i] - b[i]).abs() < 1e-6);
    }
}

#[test]
fn letterbox_is_centred_in_the_unit_square() {
    for (sw, sh, dw, dh) in [(320, 240, 64, 64), (100, 300, 640, 480), (7, 3, 5, 11)] {
        let r = as_f32(&letterbox_region(sw, sh, dw, dh));
        assert!(0.0 <= r[0] && r[0] <= r[2] && r[2] <= 1.0);
        assert!(0.0 <= r[1] && r[1] <= r[3] && r[3] <= 1.0);
        assert!((r[0] + r[2] - 1.0).abs() < 1e-6);
        assert!((r[1] + r[3] - 1.0).abs() < 1e-6);
    }
}
