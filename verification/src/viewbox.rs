//! Fitting content of a given intrinsic size into a view box: a target
//! rectangle plus an aspect-preserving alignment policy.
//!
//! Two entry points share the alignment math: [`image_rect`] yields the
//! placement rectangle for layout purposes, and
//! [`view_box_to_transform_with_clip`] yields the draw-time transform plus an
//! optional clip rectangle for compositing.

use vstd::prelude::*;

use crate::geom::MAX_DIM;
use crate::geom::Rect;
use crate::geom::ScreenSize;
use crate::geom::Transform;
use crate::geom::rect_valid;
use crate::geom::size_valid;

verus! {

/// Position of content along one axis of the view box: flush to the low
/// edge, centered, or flush to the high edge.
#[derive(Clone, Copy, Debug, PartialEq, Eq, Structural)]
pub enum AxisAlign {
    Min,
    Mid,
    Max,
}

/// Alignment policy for both axes.
#[derive(Clone, Copy, Debug, PartialEq, Eq, Structural)]
pub struct AlignPair {
    pub x: AxisAlign,
    pub y: AxisAlign,
}

/// Aspect policy of a view box. `align == None` stretches content to the
/// target rectangle without preserving its aspect ratio. Otherwise the
/// aspect ratio is preserved: content is scaled to fit inside the target
/// ("meet", `slice == false`) or to cover it ("slice", `slice == true`) and
/// positioned by the alignment pair.
#[derive(Clone, Copy, Debug)]
pub struct Aspect {
    pub align: Option<AlignPair>,
    pub slice: bool,
}

/// A target rectangle plus the policy that places content of a possibly
/// different intrinsic size inside it.
#[derive(Clone, Copy, Debug)]
pub struct ViewBox {
    pub rect: Rect,
    pub aspect: Aspect,
}

/// A view box is usable when its target rectangle is.
pub open spec fn vb_valid(vb: ViewBox) -> bool {
    rect_valid(vb.rect)
}

/// `p / q` rounded to the nearest integer, halves rounding up.
pub open spec fn round_div(p: int, q: int) -> int {
    (2 * p + q) / (2 * q)
}

/// Scaled dimensions are kept within the library's range: degenerate
/// sub-pixel results become one pixel, oversized ones saturate at `MAX_DIM`.
pub open spec fn clamp_dim(v: int) -> int {
    if v < 1 {
        1
    } else if v > MAX_DIM as int {
        MAX_DIM as int
    } else {
        v
    }
}

/// The dimensions of intrinsic size `(sw, sh)` scaled per the view box's
/// aspect policy: stretched to the target for `align == None`, otherwise
/// scaled by the smaller ("meet") or larger ("slice") of the two axis ratios,
/// the scaled dimension rounded to the nearest pixel and clamped.
pub open spec fn fit_size(sw: int, sh: int, vb: ViewBox) -> (int, int) {
    let tw = vb.rect.width as int;
    let th = vb.rect.height as int;
    match vb.aspect.align {
        None => (tw, th),
        Some(_) => {
            let width_limited = if vb.aspect.slice {
                tw * sh >= th * sw
            } else {
                tw * sh <= th * sw
            };
            if width_limited {
                (tw, clamp_dim(round_div(sh * tw, sw)))
            } else {
                (clamp_dim(round_div(sw * th, sh)), th)
            }
        },
    }
}

/// Offset of content along one axis, given the leftover space `d`
/// (target dimension minus fitted dimension, negative when content
/// overflows). Centering rounds toward the low edge.
pub open spec fn axis_offset(a: AxisAlign, d: int) -> int {
    match a {
        AxisAlign::Min => 0,
        AxisAlign::Mid => d / 2,
        AxisAlign::Max => d,
    }
}

/// Horizontal position of fitted content of width `new_w`.
pub open spec fn aligned_x(vb: ViewBox, new_w: int) -> int {
    match vb.aspect.align {
        None => vb.rect.x as int,
        Some(p) => vb.rect.x as int + axis_offset(p.x, vb.rect.width as int - new_w),
    }
}

/// Vertical position of fitted content of height `new_h`.
pub open spec fn aligned_y(vb: ViewBox, new_h: int) -> int {
    match vb.aspect.align {
        None => vb.rect.y as int,
        Some(p) => vb.rect.y as int + axis_offset(p.y, vb.rect.height as int - new_h),
    }
}

/// The placement rectangle of content with intrinsic size `size` inside the
/// view box: fitted size at the aligned position.
pub open spec fn image_rect_spec(vb: ViewBox, size: ScreenSize) -> Rect {
    let p = fit_size(size.width as int, size.height as int, vb);
    Rect {
        x: aligned_x(vb, p.0) as i64,
        y: aligned_y(vb, p.1) as i64,
        width: p.0 as i64,
        height: p.1 as i64,
    }
}

/// The draw-time transform: scale intrinsic coordinates by fitted size over
/// intrinsic size on each axis, then translate to the aligned position.
pub open spec fn vb_transform(vb: ViewBox, size: ScreenSize) -> Transform {
    let p = fit_size(size.width as int, size.height as int, vb);
    Transform {
        sx_num: p.0 as u32,
        sx_den: size.width,
        sy_num: p.1 as u32,
        sy_den: size.height,
        tx: aligned_x(vb, p.0) as i64,
        ty: aligned_y(vb, p.1) as i64,
    }
}

/// The draw-time clip: the view box's own rectangle exactly when the fitted
/// content overflows it on either axis, nothing otherwise.
pub open spec fn vb_clip(vb: ViewBox, size: ScreenSize) -> Option<Rect> {
    let p = fit_size(size.width as int, size.height as int, vb);
    if p.0 > vb.rect.width as int || p.1 > vb.rect.height as int {
        Some(vb.rect)
    } else {
        None
    }
}

/// `0 <= a <= m` and `0 <= b <= m` bound the product `a * b` by `m * m`.
proof fn lemma_mul_bound(a: int, b: int, m: int)
    requires
        0 <= a <= m,
        0 <= b <= m,
    ensures
        0 <= a * b <= m * m,
{
    assert(0 <= a * b <= m * m) by (nonlinear_arith)
        requires
            0 <= a <= m && 0 <= b <= m,
    ;
}

/// Rounding an exact multiple of the divisor recovers the factor.
pub proof fn lemma_round_div_multiple(n: int, q: int)
    requires
        1 <= q,
        0 <= n,
    ensures
        round_div(n * q, q) == n,
{
    assert(2 * (n * q) + q == n * (2 * q) + q) by (nonlinear_arith);
    vstd::arithmetic::div_mod::lemma_fundamental_div_mod_converse(n * (2 * q) + q, 2 * q, n, q);
}

/// `p / q` rounded to nearest, for `p` up to `2^46` and `q` up to `2^21`.
fn round_div_u64(p: u64, q: u64) -> (r: u64)
    requires
        1 <= q <= 0x200000,
        p <= 0x400000000000,
    ensures
        r as int == round_div(p as int, q as int),
{
    (2 * p + q) / (2 * q)
}

/// Clamps a scaled dimension into `1 ..= MAX_DIM`.
fn clamp_dim_i64(v: i64) -> (r: i64)
    ensures
        r as int == clamp_dim(v as int),
        1 <= r <= MAX_DIM,
{
    if v < 1 {
        1
    } else if v > MAX_DIM {
        MAX_DIM
    } else {
        v
    }
}

/// Floor of `d / 2`, also for negative `d`.
fn floor_div2(d: i64) -> (r: i64)
    requires
        -0x200000 <= d <= 0x200000,
    ensures
        r as int == d as int / 2,
{
    if d >= 0 {
        ((d as u64) / 2) as i64
    } else {
        let m: u64 = (-d) as u64;
        let q: u64 = (m + 1) / 2;
        proof {
            let mi = m as int;
            let qi = q as int;
            vstd::arithmetic::div_mod::lemma_fundamental_div_mod(mi + 1, 2);
            vstd::arithmetic::div_mod::lemma_mod_bound(mi + 1, 2);
            vstd::arithmetic::div_mod::lemma_fundamental_div_mod_converse(
                d as int,
                2,
                -qi,
                1 - (mi + 1) % 2,
            );
        }
        -(q as i64)
    }
}

/// Offset of content along one axis for the leftover space `d`.
fn axis_offset_exec(a: &AxisAlign, d: i64) -> (r: i64)
    requires
        -0x200000 <= d <= 0x200000,
    ensures
        r as int == axis_offset(*a, d as int),
{
    match a {
        AxisAlign::Min => 0,
        AxisAlign::Mid => floor_div2(d),
        AxisAlign::Max => d,
    }
}

/// Scales an intrinsic size to the view box per its aspect policy.
pub fn fit_view_box(size: &ScreenSize, vb: &ViewBox) -> (r: ScreenSize)
    requires
        size_valid(*size),
        vb_valid(*vb),
    ensures
        r.width as int == fit_size(size.width as int, size.height as int, *vb).0,
        r.height as int == fit_size(size.width as int, size.height as int, *vb).1,
        size_valid(r),
{
    let tw: i64 = vb.rect.width;
    let th: i64 = vb.rect.height;
    let sw: i64 = size.width as i64;
    let sh: i64 = size.height as i64;
    match &vb.aspect.align {
        None => ScreenSize { width: tw as u32, height: th as u32 },
        Some(_) => {
            proof {
                lemma_mul_bound(tw as int, sh as int, MAX_DIM as int);
                lemma_mul_bound(th as int, sw as int, MAX_DIM as int);
                lemma_mul_bound(sw as int, th as int, MAX_DIM as int);
                lemma_mul_bound(sh as int, tw as int, MAX_DIM as int);
            }
            let cross_w: i64 = tw * sh;
            let cross_h: i64 = th * sw;
            let width_limited = if vb.aspect.slice {
                cross_w >= cross_h
            } else {
                cross_w <= cross_h
            };
            if width_limited {
                let scaled = round_div_u64((sh * tw) as u64, sw as u64);
                let nh = clamp_dim_i64(scaled as i64);
                ScreenSize { width: tw as u32, height: nh as u32 }
            } else {
                let scaled = round_div_u64((sw * th) as u64, sh as u64);
                let nw = clamp_dim_i64(scaled as i64);
                ScreenSize { width: nw as u32, height: th as u32 }
            }
        },
    }
}

/// Calculates an image's placement rectangle from the provided view box:
/// the fitted size, offset inside the target rectangle per the alignment
/// policy.
pub fn image_rect(view_box: &ViewBox, img_size: &ScreenSize) -> (r: Rect)
    requires
        vb_valid(*view_box),
        size_valid(*img_size),
    ensures
        r == image_rect_spec(*view_box, *img_size),
{
    let new_size = fit_view_box(img_size, view_box);
    let dx: i64 = view_box.rect.width - new_size.width as i64;
    let dy: i64 = view_box.rect.height - new_size.height as i64;
    let mut ox: i64 = 0;
    let mut oy: i64 = 0;
    match &view_box.aspect.align {
        None => {},
        Some(p) => {
            ox = axis_offset_exec(&p.x, dx);
            oy = axis_offset_exec(&p.y, dy);
        },
    }
    Rect {
        x: view_box.rect.x + ox,
        y: view_box.rect.y + oy,
        width: new_size.width as i64,
        height: new_size.height as i64,
    }
}

/// Computes the draw-time transform for content of intrinsic size
/// `img_size`, plus the clip rectangle to apply when the fitted content
/// overflows the view box's target rectangle.
pub fn view_box_to_transform_with_clip(vb: &ViewBox, img_size: &ScreenSize) -> (r: (
    Transform,
    Option<Rect>,
))
    requires
        vb_valid(*vb),
        size_valid(*img_size),
    ensures
        r.0 == vb_transform(*vb, *img_size),
        r.1 == vb_clip(*vb, *img_size),
{
    let new_size = fit_view_box(img_size, vb);
    let dx: i64 = vb.rect.width - new_size.width as i64;
    let dy: i64 = vb.rect.height - new_size.height as i64;
    let mut ox: i64 = 0;
    let mut oy: i64 = 0;
    match &vb.aspect.align {
        None => {},
        Some(p) => {
            ox = axis_offset_exec(&p.x, dx);
            oy = axis_offset_exec(&p.y, dy);
        },
    }
    let ts = Transform {
        sx_num: new_size.width,
        sx_den: img_size.width,
        sy_num: new_size.height,
        sy_den: img_size.height,
        tx: vb.rect.x + ox,
        ty: vb.rect.y + oy,
    };
    let clip = if new_size.width as i64 > vb.rect.width || new_size.height as i64
        > vb.rect.height {
        Some(vb.rect)
    } else {
        None
    };
    (ts, clip)
}

/// A view box whose target rectangle exactly matches the intrinsic size,
/// aligned mid/mid, reports the target rectangle itself: zero offset, size
/// unchanged.
pub proof fn lemma_image_rect_identity(vb: ViewBox, size: ScreenSize)
    requires
        vb_valid(vb),
        size_valid(size),
        vb.rect.width as int == size.width as int,
        vb.rect.height as int == size.height as int,
        vb.aspect.align == Some(AlignPair { x: AxisAlign::Mid, y: AxisAlign::Mid }),
    ensures
        image_rect_spec(vb, size) == vb.rect,
{
    let sw = size.width as int;
    let sh = size.height as int;
    assert(sw * sh == sh * sw) by (nonlinear_arith);
    lemma_round_div_multiple(sh, sw);
    lemma_round_div_multiple(sw, sh);
    assert(fit_size(sw, sh, vb) == (sw, sh));
    assert(axis_offset(AxisAlign::Mid, 0) == 0) by {
        vstd::arithmetic::div_mod::lemma_fundamental_div_mod_converse(0, 2, 0, 0);
    }
}

/// A square intrinsic size fitted ("meet") into a wider target rectangle
/// with min/mid alignment lands flush at the target's low x edge, vertically
/// centered: the result is the target-height square at the target origin.
pub proof fn lemma_image_rect_square_in_wide(vb: ViewBox, size: ScreenSize)
    requires
        vb_valid(vb),
        size_valid(size),
        size.width == size.height,
        vb.rect.width > vb.rect.height,
        vb.aspect.align == Some(AlignPair { x: AxisAlign::Min, y: AxisAlign::Mid }),
        !vb.aspect.slice,
    ensures
        image_rect_spec(vb, size) == (Rect {
            x: vb.rect.x,
            y: vb.rect.y,
            width: vb.rect.height,
            height: vb.rect.height,
        }),
{
    let s = size.width as int;
    let tw = vb.rect.width as int;
    let th = vb.rect.height as int;
    assert(tw * s > th * s) by (nonlinear_arith)
        requires
            tw > th && s >= 1,
    ;
    assert(s * th == th * s) by (nonlinear_arith);
    lemma_round_div_multiple(th, s);
    assert(fit_size(s, s, vb) == (th, th));
    assert(axis_offset(AxisAlign::Mid, 0) == 0) by {
        vstd::arithmetic::div_mod::lemma_fundamental_div_mod_converse(0, 2, 0, 0);
    }
}

} // verus!
