//! A model of the mutable 2D drawing surface: a clip stack, a transform
//! stack, the raster images written, and a trace of every operation applied,
//! in order.
//!
//! Rendering must leave the clip and transform stacks exactly as it found
//! them; the trace lets callers and tests observe the transient push/pop
//! cycles that a balanced render performs. Clips and transforms are kept as
//! paired push/pop operations so the two stacks cannot fall out of step.

use vstd::prelude::*;

use crate::geom::Rect;
use crate::geom::Transform;
use crate::pixels::Image;

verus! {

/// One operation applied to the surface.
#[derive(Clone, Copy, Debug, PartialEq, Eq, Structural)]
pub enum SurfaceOp {
    PushClip(Rect),
    PopClip,
    PushTransform(Transform),
    PopTransform,
    Write,
}

/// The drawing surface model.
pub struct Surface {
    pub clip_stack: Vec<Rect>,
    pub transform_stack: Vec<Transform>,
    pub writes: Vec<Image>,
    pub trace: Vec<SurfaceOp>,
}

impl Surface {
    /// A fresh surface: empty stacks, nothing written, empty trace.
    pub fn new() -> (s: Surface)
        ensures
            s.clip_stack@.len() == 0,
            s.transform_stack@.len() == 0,
            s.writes@.len() == 0,
            s.trace@.len() == 0,
    {
        Surface {
            clip_stack: Vec::new(),
            transform_stack: Vec::new(),
            writes: Vec::new(),
            trace: Vec::new(),
        }
    }

    /// Restricts drawing to `r` until the matching pop.
    pub fn push_clip(&mut self, r: Rect)
        ensures
            final(self).clip_stack@ == old(self).clip_stack@.push(r),
            final(self).transform_stack@ == old(self).transform_stack@,
            final(self).writes@ == old(self).writes@,
            final(self).trace@ == old(self).trace@.push(SurfaceOp::PushClip(r)),
    {
        self.clip_stack.push(r);
        self.trace.push(SurfaceOp::PushClip(r));
    }

    /// Removes the most recently pushed clip.
    pub fn pop_clip(&mut self)
        requires
            old(self).clip_stack@.len() > 0,
        ensures
            final(self).clip_stack@ == old(self).clip_stack@.drop_last(),
            final(self).transform_stack@ == old(self).transform_stack@,
            final(self).writes@ == old(self).writes@,
            final(self).trace@ == old(self).trace@.push(SurfaceOp::PopClip),
    {
        let _ = self.clip_stack.pop();
        self.trace.push(SurfaceOp::PopClip);
    }

    /// Composes `t` onto the transform state until the matching pop.
    pub fn push_transform(&mut self, t: Transform)
        ensures
            final(self).transform_stack@ == old(self).transform_stack@.push(t),
            final(self).clip_stack@ == old(self).clip_stack@,
            final(self).writes@ == old(self).writes@,
            final(self).trace@ == old(self).trace@.push(SurfaceOp::PushTransform(t)),
    {
        self.transform_stack.push(t);
        self.trace.push(SurfaceOp::PushTransform(t));
    }

    /// Removes the most recently pushed transform.
    pub fn pop_transform(&mut self)
        requires
            old(self).transform_stack@.len() > 0,
        ensures
            final(self).transform_stack@ == old(self).transform_stack@.drop_last(),
            final(self).clip_stack@ == old(self).clip_stack@,
            final(self).writes@ == old(self).writes@,
            final(self).trace@ == old(self).trace@.push(SurfaceOp::PopTransform),
    {
        let _ = self.transform_stack.pop();
        self.trace.push(SurfaceOp::PopTransform);
    }

    /// Writes raster pixel data onto the surface.
    pub fn write_image(&mut self, image: Image)
        ensures
            final(self).writes@ == old(self).writes@.push(image),
            final(self).clip_stack@ == old(self).clip_stack@,
            final(self).transform_stack@ == old(self).transform_stack@,
            final(self).trace@ == old(self).trace@.push(SurfaceOp::Write),
    {
        self.writes.push(image);
        self.trace.push(SurfaceOp::Write);
    }
}

} // verus!
