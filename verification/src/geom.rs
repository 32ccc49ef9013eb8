//! Geometric primitives: integer pixel sizes, axis-aligned rectangles and
//! the affine transforms produced by view-box fitting.

use vstd::prelude::*;

verus! {

/// Largest width or height (in pixels) the library accepts. Keeping the
/// dimensions below `2^20` lets every product of two dimensions fit in an
/// `i64` with room to spare.
pub const MAX_DIM: i64 = 1048576;

/// Largest magnitude of a rectangle origin coordinate, `2^40`.
pub const MAX_POS: i64 = 1099511627776;

/// Intrinsic pixel dimensions of raster data or of a vector sub-document.
#[derive(Clone, Copy, Debug, PartialEq, Eq, Structural)]
pub struct ScreenSize {
    pub width: u32,
    pub height: u32,
}

/// An axis-aligned rectangle with integer coordinates; `width` and `height`
/// are positive.
#[derive(Clone, Copy, Debug, PartialEq, Eq, Structural)]
pub struct Rect {
    pub x: i64,
    pub y: i64,
    pub width: i64,
    pub height: i64,
}

/// An axis-aligned affine transform: scale by `sx_num / sx_den` horizontally
/// and `sy_num / sy_den` vertically, then translate by `(tx, ty)`.
///
/// View-box fitting only ever scales and translates, so a rational scale per
/// axis plus an integer offset represents every transform this library
/// produces, exactly.
#[derive(Clone, Copy, Debug, PartialEq, Eq, Structural)]
pub struct Transform {
    pub sx_num: u32,
    pub sx_den: u32,
    pub sy_num: u32,
    pub sy_den: u32,
    pub tx: i64,
    pub ty: i64,
}

/// A size is usable when both dimensions are at least one pixel and small
/// enough for overflow-free fitting arithmetic.
pub open spec fn size_valid(s: ScreenSize) -> bool {
    1 <= s.width as int <= MAX_DIM as int && 1 <= s.height as int <= MAX_DIM as int
}

/// A rectangle is usable when its dimensions are positive and bounded and its
/// origin lies within the coordinate range.
pub open spec fn rect_valid(r: Rect) -> bool {
    &&& 1 <= r.width as int <= MAX_DIM as int
    &&& 1 <= r.height as int <= MAX_DIM as int
    &&& -(MAX_POS as int) <= r.x as int <= MAX_POS as int
    &&& -(MAX_POS as int) <= r.y as int <= MAX_POS as int
}

} // verus!
