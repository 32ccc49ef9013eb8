//! Packing raw RGB/RGBA samples into the premultiplied, channel-reordered
//! byte layout of a 32-bit ARGB drawing surface.
//!
//! Each output pixel occupies four bytes, blue first, alpha last, and every
//! color channel is scaled by the pixel's alpha value with round-to-nearest
//! integer arithmetic.

use vstd::prelude::*;

use crate::geom::ScreenSize;
use crate::geom::size_valid;

verus! {

/// A channel value `c` premultiplied by an alpha value `a`: the integer
/// nearest to `a * c / 255`. A tie cannot occur because 255 is odd, so the
/// nearest integer is `(a * c + 127) / 255` rounded down.
pub open spec fn premul(a: int, c: int) -> int {
    (a * c + 127) / 255
}

/// A raster image: flat sample bytes plus intrinsic pixel dimensions.
pub struct Image {
    pub data: ImageData,
    pub size: ScreenSize,
}

/// Raw raster samples in row-major order: three bytes per pixel without an
/// alpha channel, or four bytes per pixel with alpha last.
pub enum ImageData {
    RGB(Vec<u8>),
    RGBA(Vec<u8>),
}

/// The flat sample bytes of either variant.
pub open spec fn data_bytes(data: ImageData) -> Seq<u8> {
    match data {
        ImageData::RGB(v) => v@,
        ImageData::RGBA(v) => v@,
    }
}

/// Bytes per sample: 3 for RGB, 4 for RGBA.
pub open spec fn channel_count(data: ImageData) -> int {
    match data {
        ImageData::RGB(_) => 3,
        ImageData::RGBA(_) => 4,
    }
}

/// Channel `k` (0 red, 1 green, 2 blue) of pixel `j`.
pub open spec fn pixel_channel(data: ImageData, j: int, k: int) -> int {
    data_bytes(data)[channel_count(data) * j + k] as int
}

/// Alpha of pixel `j`: fully opaque for RGB data, the fourth sample byte for
/// RGBA data.
pub open spec fn pixel_alpha(data: ImageData, j: int) -> int {
    match data {
        ImageData::RGB(_) => 255,
        ImageData::RGBA(v) => v@[4 * j + 3] as int,
    }
}

/// Number of pixels an image holds.
pub open spec fn pixel_count(img: Image) -> int {
    img.size.width as int * img.size.height as int
}

/// Well-formed raster data: a usable size, and exactly one sample per pixel.
pub open spec fn image_wf(img: Image) -> bool {
    size_valid(img.size) && data_bytes(img.data).len() == channel_count(img.data) * pixel_count(
        img,
    )
}

/// Byte `k` of the packed surface layout: pixel `k / 4`, with bytes ordered
/// blue, green, red, alpha inside each four-byte group, the color bytes
/// premultiplied by the pixel's alpha.
pub open spec fn surface_byte(data: ImageData, k: int) -> int {
    let j = k / 4;
    let m = k % 4;
    if m == 3 {
        pixel_alpha(data, j)
    } else {
        premul(pixel_alpha(data, j), pixel_channel(data, j, 2 - m))
    }
}

/// One channel premultiplied by alpha, computed with the shift-and-add
/// rounding trick `t = a*c + 0x80; ((t >> 8) + t) >> 8`, which equals
/// `premul` for every pair of byte inputs.
pub fn premultiply_channel(alpha: u8, chan: u8) -> (r: u8)
    ensures
        r as int == premul(alpha as int, chan as int),
{
    let a32: u32 = alpha as u32;
    let c32: u32 = chan as u32;
    proof {
        assert(a32 * c32 <= 65025) by (bit_vector)
            requires
                a32 < 256 && c32 < 256,
        ;
    }
    let t: u32 = a32 * c32 + 0x80;
    let high: u32 = t >> 8;
    proof {
        assert(high <= t) by (bit_vector)
            requires
                high == t >> 8,
        ;
    }
    let s: u32 = high + t;
    let r32: u32 = s >> 8;
    proof {
        assert(r32 == (a32 * c32 + 127) / 255 && r32 < 256) by (bit_vector)
            requires
                a32 < 256 && c32 < 256 && t == a32 * c32 + 0x80 && high == t >> 8 && s == high + t
                    && r32 == s >> 8,
        ;
    }
    r32 as u8
}

/// For full alpha, premultiplication returns the channel unchanged.
pub proof fn lemma_premul_identity(c: int)
    requires
        0 <= c <= 255,
    ensures
        premul(255, c) == c,
{
    vstd::arithmetic::div_mod::lemma_fundamental_div_mod_converse(255 * c + 127, 255, c, 127);
}

/// For zero alpha, premultiplication returns zero whatever the channel holds.
pub proof fn lemma_premul_zero(c: int)
    requires
        0 <= c <= 255,
    ensures
        premul(0, c) == 0,
{
    assert(0 * c == 0);
    vstd::arithmetic::div_mod::lemma_fundamental_div_mod_converse(127, 255, 0, 127);
}

/// For a fixed channel value, raising alpha never lowers the premultiplied
/// output.
pub proof fn lemma_premul_monotonic(a1: int, a2: int, c: int)
    requires
        0 <= a1 <= a2 <= 255,
        1 <= c <= 255,
    ensures
        premul(a1, c) <= premul(a2, c),
{
    assert(a1 * c <= a2 * c) by (nonlinear_arith)
        requires
            0 <= a1 <= a2 && 0 <= c,
    ;
    vstd::arithmetic::div_mod::lemma_div_is_ordered(a1 * c + 127, a2 * c + 127, 255);
}

/// Packs an image's samples into the surface's four-byte-per-pixel layout:
/// blue, green, red, alpha, with the color bytes premultiplied by alpha.
/// RGB input is treated as fully opaque, which leaves its channels unchanged.
pub fn image_to_surface(image: &Image) -> (surface: Vec<u8>)
    requires
        image_wf(*image),
        4 * pixel_count(*image) <= usize::MAX as int,
    ensures
        surface@.len() == 4 * pixel_count(*image),
        forall|k: int|
            0 <= k < surface@.len() ==> #[trigger] surface@[k] as int == surface_byte(
                image.data,
                k,
            ),
{
    let npix: usize = (image.size.width as usize) * (image.size.height as usize);
    let mut out: Vec<u8> = Vec::new();
    match &image.data {
        ImageData::RGB(d) => {
            let mut i: usize = 0;
            while i < npix
                invariant
                    image_wf(*image),
                    image.data matches ImageData::RGB(dd) && dd@ == d@,
                    npix as int == pixel_count(*image),
                    d@.len() == 3 * npix,
                    i <= npix,
                    out@.len() == 4 * i,
                    4 * npix <= usize::MAX,
                    forall|k: int|
                        0 <= k < out@.len() ==> #[trigger] out@[k] as int == surface_byte(
                            image.data,
                            k,
                        ),
                decreases npix - i,
            {
                let base: usize = 3 * i;
                let red = d[base];
                let green = d[base + 1];
                let blue = d[base + 2];
                out.push(premultiply_channel(255, blue));
                out.push(premultiply_channel(255, green));
                out.push(premultiply_channel(255, red));
                out.push(255);
                proof {
                    let ii = i as int;
                    vstd::arithmetic::div_mod::lemma_fundamental_div_mod_converse(4 * ii, 4, ii, 0);
                    vstd::arithmetic::div_mod::lemma_fundamental_div_mod_converse(
                        4 * ii + 1,
                        4,
                        ii,
                        1,
                    );
                    vstd::arithmetic::div_mod::lemma_fundamental_div_mod_converse(
                        4 * ii + 2,
                        4,
                        ii,
                        2,
                    );
                    vstd::arithmetic::div_mod::lemma_fundamental_div_mod_converse(
                        4 * ii + 3,
                        4,
                        ii,
                        3,
                    );
                }
                i += 1;
            }
        },
        ImageData::RGBA(d) => {
            let mut i: usize = 0;
            while i < npix
                invariant
                    image_wf(*image),
                    image.data matches ImageData::RGBA(dd) && dd@ == d@,
                    npix as int == pixel_count(*image),
                    d@.len() == 4 * npix,
                    i <= npix,
                    out@.len() == 4 * i,
                    4 * npix <= usize::MAX,
                    forall|k: int|
                        0 <= k < out@.len() ==> #[trigger] out@[k] as int == surface_byte(
                            image.data,
                            k,
                        ),
                decreases npix - i,
            {
                let base: usize = 4 * i;
                let red = d[base];
                let green = d[base + 1];
                let blue = d[base + 2];
                let alpha = d[base + 3];
                out.push(premultiply_channel(alpha, blue));
                out.push(premultiply_channel(alpha, green));
                out.push(premultiply_channel(alpha, red));
                out.push(alpha);
                proof {
                    let ii = i as int;
                    vstd::arithmetic::div_mod::lemma_fundamental_div_mod_converse(4 * ii, 4, ii, 0);
                    vstd::arithmetic::div_mod::lemma_fundamental_div_mod_converse(
                        4 * ii + 1,
                        4,
                        ii,
                        1,
                    );
                    vstd::arithmetic::div_mod::lemma_fundamental_div_mod_converse(
                        4 * ii + 2,
                        4,
                        ii,
                        2,
                    );
                    vstd::arithmetic::div_mod::lemma_fundamental_div_mod_converse(
                        4 * ii + 3,
                        4,
                        ii,
                        3,
                    );
                }
                i += 1;
            }
        },
    }
    out
}

} // verus!
