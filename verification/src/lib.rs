//! Rendering core for the "image" element of a vector-graphics scene.
//!
//! The crate covers three concerns:
//! - packing raw RGB/RGBA samples into the premultiplied, blue-first byte
//!   layout of a 32-bit ARGB drawing surface ([`pixels`]);
//! - fitting content of a given intrinsic size into a view box, producing a
//!   layout rect or a draw-time transform plus optional clip ([`viewbox`]);
//! - drawing an image element onto a surface, recursing into embedded vector
//!   sub-documents with strict push/pop discipline for the surface's clip and
//!   transform stacks ([`render`], [`surface`]).
//!
//! Geometry is modelled with integer coordinates; callers that hold
//! fractional coordinates round before entering the library.

pub mod geom;
pub mod pixels;
pub mod render;
pub mod surface;
pub mod viewbox;
