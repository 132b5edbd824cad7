//! Letterbox geometry: where an aspect-preserving, centred fit of a source
//! image places its content inside a model input of another shape.
//!
//! Coordinates are normalized to the destination (`[0, 1]` on both axes) and
//! held exactly: the content extent along the padded axis is the fraction
//! `content_num / content_den`, and the padding is split evenly on both sides.

use vstd::prelude::*;

verus! {

/// A rational number as a (numerator, denominator) pair; denominators are
/// positive wherever the library builds one.
pub open spec fn ratio_le(a: (int, int), b: (int, int)) -> bool {
    a.0 * b.1 <= b.0 * a.1
}

/// Equality of two rationals.
pub open spec fn ratio_eq(a: (int, int), b: (int, int)) -> bool {
    a.0 * b.1 == b.0 * a.1
}

/// Sum of two rationals.
pub open spec fn ratio_add(a: (int, int), b: (int, int)) -> (int, int) {
    (a.0 * b.1 + b.0 * a.1, a.1 * b.1)
}

/// Difference of two rationals.
pub open spec fn ratio_sub(a: (int, int), b: (int, int)) -> (int, int) {
    (a.0 * b.1 - b.0 * a.1, a.1 * b.1)
}

/// The axis along which the content is padded.
#[derive(Debug, Clone, Copy, PartialEq, Eq, Structural)]
pub enum PadAxis {
    /// The content covers the whole destination.
    Unpadded,
    /// The content spans the full width; padding above and below.
    Vertical,
    /// The content spans the full height; padding left and right.
    Horizontal,
}

/// The normalized content region `[x_min, y_min, x_max, y_max]` of a
/// letterboxed model input; the rest is padding.
#[derive(Debug, Clone, Copy, PartialEq, Eq, Structural)]
pub struct LetterboxRegion {
    /// Which axis is padded.
    pub padding: PadAxis,
    /// Numerator of the content's extent along the padded axis.
    pub content_num: u128,
    /// Denominator of the content's extent along the padded axis.
    pub content_den: u128,
}

impl LetterboxRegion {
    /// The extent is a positive denominator over a numerator no larger.
    pub open spec fn wf(self) -> bool {
        &&& self.content_den > 0
        &&& self.content_num <= self.content_den
    }

    /// Low edge along the padded axis: `(1 - extent) / 2`.
    pub open spec fn low_edge(self) -> (int, int) {
        (self.content_den - self.content_num, 2 * self.content_den)
    }

    /// High edge along the padded axis: `(1 + extent) / 2`.
    pub open spec fn high_edge(self) -> (int, int) {
        (self.content_den + self.content_num, 2 * self.content_den)
    }

    pub open spec fn x_min(self) -> (int, int) {
        if self.padding == PadAxis::Horizontal { self.low_edge() } else { (0, 1) }
    }

    pub open spec fn x_max(self) -> (int, int) {
        if self.padding == PadAxis::Horizontal { self.high_edge() } else { (1, 1) }
    }

    pub open spec fn y_min(self) -> (int, int) {
        if self.padding == PadAxis::Vertical { self.low_edge() } else { (0, 1) }
    }

    pub open spec fn y_max(self) -> (int, int) {
        if self.padding == PadAxis::Vertical { self.high_edge() } else { (1, 1) }
    }
}

/// The region that letterboxing a `src_w`×`src_h` image into a
/// `dst_w`×`dst_h` target leaves to the content.
///
/// A zero dimension yields the whole target. Otherwise the source is scaled
/// to touch the target on the tighter axis: when the source is wider than the
/// target (`src_w / src_h > dst_w / dst_h`, that is
/// `dst_h * src_w > dst_w * src_h`) it spans the full width and covers
/// `(dst_w * src_h) / (dst_h * src_w)` of the height; otherwise it spans the
/// full height and covers `(dst_h * src_w) / (dst_w * src_h)` of the width.
pub open spec fn letterbox_spec(src_w: usize, src_h: usize, dst_w: usize, dst_h: usize) -> LetterboxRegion {
    if src_w == 0 || src_h == 0 || dst_w == 0 || dst_h == 0 {
        LetterboxRegion { padding: PadAxis::Unpadded, content_num: 1, content_den: 1 }
    } else if dst_h * src_w > dst_w * src_h {
        LetterboxRegion {
            padding: PadAxis::Vertical,
            content_num: (dst_w * src_h) as u128,
            content_den: (dst_h * src_w) as u128,
        }
    } else {
        LetterboxRegion {
            padding: PadAxis::Horizontal,
            content_num: (dst_h * src_w) as u128,
            content_den: (dst_w * src_h) as u128,
        }
    }
}

proof fn lemma_usize_product_fits(a: usize, b: usize)
    ensures
        a * b <= u128::MAX,
{
    assert(a * b <= usize::MAX * usize::MAX) by (nonlinear_arith)
        requires
            a <= usize::MAX,
            b <= usize::MAX,
    ;
    assert(usize::MAX * usize::MAX <= u128::MAX) by (nonlinear_arith)
        requires
            usize::MAX <= u64::MAX,
    ;
}

proof fn lemma_positive_product(a: int, b: int)
    requires
        a > 0,
        b > 0,
    ensures
        a * b > 0,
{
    assert(a * b > 0) by (nonlinear_arith)
        requires
            a > 0,
            b > 0,
    ;
}

/// Compute the letterbox content region of a `src_w`×`src_h` source fitted
/// into a `dst_w`×`dst_h` target (aspect-preserving, centred).
pub fn letterbox_region(src_w: usize, src_h: usize, dst_w: usize, dst_h: usize) -> (r: LetterboxRegion)
    ensures
        r == letterbox_spec(src_w, src_h, dst_w, dst_h),
        r.wf(),
{
    if src_w == 0 || src_h == 0 || dst_w == 0 || dst_h == 0 {
        return LetterboxRegion { padding: PadAxis::Unpadded, content_num: 1, content_den: 1 };
    }
    proof {
        lemma_usize_product_fits(dst_h, src_w);
        lemma_usize_product_fits(dst_w, src_h);
        lemma_positive_product(dst_h as int, src_w as int);
        lemma_positive_product(dst_w as int, src_h as int);
    }
    let fill_width: u128 = (dst_h as u128) * (src_w as u128);
    let fill_height: u128 = (dst_w as u128) * (src_h as u128);
    if fill_width > fill_height {
        LetterboxRegion { padding: PadAxis::Vertical, content_num: fill_height, content_den: fill_width }
    } else {
        LetterboxRegion { padding: PadAxis::Horizontal, content_num: fill_width, content_den: fill_height }
    }
}

proof fn lemma_edges(num: int, den: int)
    requires
        den > 0,
        0 <= num <= den,
    ensures
        (den - num) * (2 * den) <= (den + num) * (2 * den),
        (den - num) * (2 * den) + (den + num) * (2 * den) == (2 * den) * (2 * den),
        (den + num) * (2 * den) - (den - num) * (2 * den) == 4 * num * den,
        (2 * den) * (2 * den) == 4 * den * den,
        2 * den > 0,
{
    assert((den - num) * (2 * den) <= (den + num) * (2 * den)) by (nonlinear_arith)
        requires
            den > 0,
            0 <= num,
    ;
    assert((den - num) * (2 * den) + (den + num) * (2 * den) == (2 * den) * (2 * den)) by (nonlinear_arith);
    assert((den + num) * (2 * den) - (den - num) * (2 * den) == 4 * num * den) by (nonlinear_arith);
    assert((2 * den) * (2 * den) == 4 * den * den) by (nonlinear_arith);
}

/// Law: the content region lies inside the unit square, with each low edge
/// at or before the matching high edge.
pub proof fn lemma_letterbox_within_unit_square(src_w: usize, src_h: usize, dst_w: usize, dst_h: usize)
    ensures
        ({
            let r = letterbox_spec(src_w, src_h, dst_w, dst_h);
            &&& ratio_le((0, 1), r.x_min())
            &&& ratio_le(r.x_min(), r.x_max())
            &&& ratio_le(r.x_max(), (1, 1))
            &&& ratio_le((0, 1), r.y_min())
            &&& ratio_le(r.y_min(), r.y_max())
            &&& ratio_le(r.y_max(), (1, 1))
        }),
{
    let r = letterbox_spec(src_w, src_h, dst_w, dst_h);
    lemma_letterbox_wf(src_w, src_h, dst_w, dst_h);
    lemma_edges(r.content_num as int, r.content_den as int);
}

/// Law: the content is centred, with equal padding on both sides of each
/// axis: `x_min + x_max == 1` and `y_min + y_max == 1`.
pub proof fn lemma_letterbox_centred(src_w: usize, src_h: usize, dst_w: usize, dst_h: usize)
    ensures
        ({
            let r = letterbox_spec(src_w, src_h, dst_w, dst_h);
            &&& ratio_eq(ratio_add(r.x_min(), r.x_max()), (1, 1))
            &&& ratio_eq(ratio_add(r.y_min(), r.y_max()), (1, 1))
        }),
{
    let r = letterbox_spec(src_w, src_h, dst_w, dst_h);
    lemma_letterbox_wf(src_w, src_h, dst_w, dst_h);
    lemma_edges(r.content_num as int, r.content_den as int);
}

/// Law: the content spans the whole target along at least one axis.
pub proof fn lemma_letterbox_spans_one_axis(src_w: usize, src_h: usize, dst_w: usize, dst_h: usize)
    ensures
        ({
            let r = letterbox_spec(src_w, src_h, dst_w, dst_h);
            ||| r.x_min().0 == 0 && r.x_max().0 == r.x_max().1
            ||| r.y_min().0 == 0 && r.y_max().0 == r.y_max().1
        }),
{
}

/// Law: a zero source or target dimension yields the whole target.
pub proof fn lemma_letterbox_degenerate_is_full(src_w: usize, src_h: usize, dst_w: usize, dst_h: usize)
    requires
        src_w == 0 || src_h == 0 || dst_w == 0 || dst_h == 0,
    ensures
        ({
            let r = letterbox_spec(src_w, src_h, dst_w, dst_h);
            r.x_min() == (0int, 1int) && r.y_min() == (0int, 1int)
                && r.x_max() == (1int, 1int) && r.y_max() == (1int, 1int)
        }),
{
}

/// Law: a source with the target's aspect ratio fills the whole target, with
/// no padding.
pub proof fn lemma_letterbox_same_aspect_is_full(src_w: usize, src_h: usize, dst_w: usize, dst_h: usize)
    requires
        dst_h * src_w == dst_w * src_h,
    ensures
        ({
            let r = letterbox_spec(src_w, src_h, dst_w, dst_h);
            &&& r.x_min().0 == 0 && r.x_max().0 == r.x_max().1
            &&& r.y_min().0 == 0 && r.y_max().0 == r.y_max().1
        }),
{
}

/// Law: the content keeps the source's aspect ratio. Measured in target
/// pixels, content width over content height equals `src_w / src_h`.
pub proof fn lemma_letterbox_preserves_aspect(src_w: usize, src_h: usize, dst_w: usize, dst_h: usize)
    requires
        src_w > 0,
        src_h > 0,
        dst_w > 0,
        dst_h > 0,
    ensures
        ({
            let r = letterbox_spec(src_w, src_h, dst_w, dst_h);
            let w = ratio_sub(r.x_max(), r.x_min());
            let h = ratio_sub(r.y_max(), r.y_min());
            w.0 * h.1 * (dst_w * src_h) == h.0 * w.1 * (dst_h * src_w)
        }),
{
    let r = letterbox_spec(src_w, src_h, dst_w, dst_h);
    lemma_letterbox_wf(src_w, src_h, dst_w, dst_h);
    let num = r.content_num as int;
    let den = r.content_den as int;
    lemma_edges(num, den);
    let a = dst_h * src_w;
    let b = dst_w * src_h;
    lemma_usize_product_fits(dst_h, src_w);
    lemma_usize_product_fits(dst_w, src_h);
    lemma_positive_product(dst_h as int, src_w as int);
    lemma_positive_product(dst_w as int, src_h as int);
    if r.padding == PadAxis::Vertical {
        assert(num == b && den == a);
        assert(1 * ((2 * den) * (2 * den)) * b == (4 * num * den) * 1 * a) by (nonlinear_arith)
            requires
                num == b,
                den == a,
        ;
    } else {
        assert(r.padding == PadAxis::Horizontal);
        assert(num == a && den == b);
        assert((4 * num * den) * 1 * b == 1 * ((2 * den) * (2 * den)) * a) by (nonlinear_arith)
            requires
                num == a,
                den == b,
        ;
    }
}

/// Law: transposing both the source and the target transposes the region.
pub proof fn lemma_letterbox_transpose(src_w: usize, src_h: usize, dst_w: usize, dst_h: usize)
    ensures
        ({
            let r = letterbox_spec(src_w, src_h, dst_w, dst_h);
            let t = letterbox_spec(src_h, src_w, dst_h, dst_w);
            &&& ratio_eq(r.x_min(), t.y_min())
            &&& ratio_eq(r.x_max(), t.y_max())
            &&& ratio_eq(r.y_min(), t.x_min())
            &&& ratio_eq(r.y_max(), t.x_max())
        }),
{
    let r = letterbox_spec(src_w, src_h, dst_w, dst_h);
    let t = letterbox_spec(src_h, src_w, dst_h, dst_w);
    lemma_letterbox_wf(src_w, src_h, dst_w, dst_h);
    lemma_letterbox_wf(src_h, src_w, dst_h, dst_w);
    assert(dst_w * src_h == src_h * dst_w) by (nonlinear_arith);
    assert(dst_h * src_w == src_w * dst_h) by (nonlinear_arith);
    if src_w == 0 || src_h == 0 || dst_w == 0 || dst_h == 0 {
    } else if dst_h * src_w == dst_w * src_h {
        // both sides are unpadded in effect: the extent is one
        lemma_edges(r.content_num as int, r.content_den as int);
        lemma_edges(t.content_num as int, t.content_den as int);
    }
}

proof fn lemma_scaled_edges(num: int, den: int, k: int)
    requires
        k > 0,
        den > 0,
    ensures
        ratio_eq((k * den - k * num, 2 * (k * den)), (den - num, 2 * den)),
        ratio_eq((k * den + k * num, 2 * (k * den)), (den + num, 2 * den)),
{
    assert((k * den - k * num) * (2 * den) == (den - num) * (2 * (k * den))) by (nonlinear_arith);
    assert((k * den + k * num) * (2 * den) == (den + num) * (2 * (k * den))) by (nonlinear_arith);
}

/// Law: the region depends on the source only through its aspect ratio:
/// scaling both source dimensions by the same factor leaves it unchanged.
pub proof fn lemma_letterbox_source_scale_invariant(k: usize, src_w: usize, src_h: usize, dst_w: usize, dst_h: usize)
    requires
        k > 0,
        k * src_w <= usize::MAX,
        k * src_h <= usize::MAX,
    ensures
        ({
            let r = letterbox_spec(src_w, src_h, dst_w, dst_h);
            let s = letterbox_spec((k * src_w) as usize, (k * src_h) as usize, dst_w, dst_h);
            &&& ratio_eq(r.x_min(), s.x_min())
            &&& ratio_eq(r.x_max(), s.x_max())
            &&& ratio_eq(r.y_min(), s.y_min())
            &&& ratio_eq(r.y_max(), s.y_max())
        }),
{
    let ksw = (k * src_w) as usize;
    let ksh = (k * src_h) as usize;
    let r = letterbox_spec(src_w, src_h, dst_w, dst_h);
    let s = letterbox_spec(ksw, ksh, dst_w, dst_h);
    lemma_letterbox_wf(src_w, src_h, dst_w, dst_h);
    lemma_letterbox_wf(ksw, ksh, dst_w, dst_h);
    if src_w == 0 || src_h == 0 || dst_w == 0 || dst_h == 0 {
        assert(k * src_w == 0 || k * src_h == 0 || dst_w == 0 || dst_h == 0) by (nonlinear_arith)
            requires
                src_w == 0 || src_h == 0 || dst_w == 0 || dst_h == 0,
        ;
    } else {
        lemma_positive_product(k as int, src_w as int);
        lemma_positive_product(k as int, src_h as int);
        let a = dst_h * src_w;
        let b = dst_w * src_h;
        lemma_usize_product_fits(dst_h, src_w);
        lemma_usize_product_fits(dst_w, src_h);
        lemma_usize_product_fits(dst_h, ksw);
        lemma_usize_product_fits(dst_w, ksh);
        lemma_positive_product(dst_h as int, src_w as int);
        lemma_positive_product(dst_w as int, src_h as int);
        assert(dst_h * ksw == k * a) by (nonlinear_arith)
            requires
                ksw == k * src_w,
                a == dst_h * src_w,
        ;
        assert(dst_w * ksh == k * b) by (nonlinear_arith)
            requires
                ksh == k * src_h,
                b == dst_w * src_h,
        ;
        assert(k * a > k * b <==> a > b) by (nonlinear_arith)
            requires
                k > 0,
        ;
        if a > b {
            lemma_scaled_edges(b, a, k as int);
        } else {
            lemma_scaled_edges(a, b, k as int);
        }
    }
}

/// The region built by `letterbox_spec` is well formed.
pub proof fn lemma_letterbox_wf(src_w: usize, src_h: usize, dst_w: usize, dst_h: usize)
    ensures
        letterbox_spec(src_w, src_h, dst_w, dst_h).wf(),
{
    if !(src_w == 0 || src_h == 0 || dst_w == 0 || dst_h == 0) {
        lemma_usize_product_fits(dst_h, src_w);
        lemma_usize_product_fits(dst_w, src_h);
        lemma_positive_product(dst_h as int, src_w as int);
        lemma_positive_product(dst_w as int, src_h as int);
    }
}

} // verus!
