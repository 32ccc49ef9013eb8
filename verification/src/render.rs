//! Drawing an image element onto a surface.
//!
//! [`draw`] gates on visibility, refuses raster content (unsupported in this
//! build), and hands embedded vector documents to [`draw_svg`], which clips,
//! transforms, and recurses through [`render_to_canvas`] — an embedded
//! document may itself contain further embedded documents. Recursion is
//! bounded by an explicit depth budget; exceeding it is a typed error rather
//! than an exhausted call stack.
//!
//! The element's bounding rectangle (its view box's target rectangle) is
//! reported whether or not anything was drawn, so layout consumers see
//! correct extents even for hidden content.

use vstd::prelude::*;

use crate::geom::Rect;
use crate::geom::ScreenSize;
use crate::geom::size_valid;
use crate::surface::Surface;
use crate::surface::SurfaceOp;
use crate::viewbox::ViewBox;
use crate::viewbox::vb_clip;
use crate::viewbox::vb_transform;
use crate::viewbox::vb_valid;
use crate::viewbox::view_box_to_transform_with_clip;

verus! {

/// Whether an element takes part in rendering.
#[derive(Clone, Copy, Debug, PartialEq, Eq, Structural)]
pub enum Visibility {
    Visible,
    Hidden,
    Collapse,
}

/// An opaque background fill color.
#[derive(Clone, Copy, Debug, PartialEq, Eq, Structural)]
pub struct Color {
    pub red: u8,
    pub green: u8,
    pub blue: u8,
}

/// How a top-level render scales a document.
#[derive(Clone, Copy, Debug, PartialEq, Eq, Structural)]
pub enum FitTo {
    Original,
    Width(u32),
    Height(u32),
}

/// Render configuration handed down the pipeline.
#[derive(Clone, Copy, Debug)]
pub struct Options {
    pub fit_to: FitTo,
    pub background: Option<Color>,
}

/// Why a draw request was refused.
#[derive(Clone, Copy, Debug, PartialEq, Eq, Structural)]
pub enum DrawError {
    /// Raster compositing is not supported in this build.
    UnsupportedFormat,
    /// Embedded documents nest deeper than the caller's recursion budget.
    RecursionLimitExceeded,
}

/// A vector document: its intrinsic pixel size and its image elements, in
/// document order.
pub struct Document {
    pub size: ScreenSize,
    pub images: Vec<ImageNode>,
}

/// One image element of a document.
pub struct ImageNode {
    pub visibility: Visibility,
    pub view_box: ViewBox,
    pub kind: ImageKind,
}

/// What an image element holds: encoded raster bytes, or the outcome of
/// loading embedded vector-document bytes. The loader records `None` for
/// bytes that failed to parse; drawing treats that as nothing to draw.
pub enum ImageKind {
    Raster(Vec<u8>),
    Vector(Option<Document>),
}

/// Well-formedness of a document down to `depth` levels of embedding: a
/// usable intrinsic size and well-formed image elements.
pub open spec fn doc_wf(doc: Document, depth: nat) -> bool
    decreases depth, 2int, 0int,
{
    size_valid(doc.size) && forall|i: int|
        0 <= i < doc.images@.len() ==> node_wf(#[trigger] doc.images@[i], depth)
}

/// Well-formedness of one image element down to `depth` levels.
pub open spec fn node_wf(img: ImageNode, depth: nat) -> bool
    decreases depth, 1int, 0int,
{
    vb_valid(img.view_box) && match img.kind {
        ImageKind::Raster(_) => true,
        ImageKind::Vector(doc) => embedded_wf(doc, depth),
    }
}

/// Well-formedness of a load outcome: a document, if present, is
/// well-formed one level deeper — unless the budget is already exhausted
/// there, in which case drawing never reads it.
pub open spec fn embedded_wf(doc: Option<Document>, depth: nat) -> bool
    decreases depth, 0int, 0int,
{
    match doc {
        Option::None => true,
        Option::Some(d) => depth == 0 || doc_wf(d, (depth - 1) as nat),
    }
}

/// The surface operations [`draw`] appends for one element, and its outcome.
pub open spec fn node_effect(img: ImageNode, depth: nat) -> (Seq<SurfaceOp>, Result<
    (),
    DrawError,
>)
    decreases depth, 2int, 0int,
{
    if img.visibility != Visibility::Visible {
        (Seq::<SurfaceOp>::empty(), Result::<(), DrawError>::Ok(()))
    } else {
        match img.kind {
            ImageKind::Raster(_) => (
                Seq::<SurfaceOp>::empty(),
                Result::<(), DrawError>::Err(DrawError::UnsupportedFormat),
            ),
            ImageKind::Vector(doc) => svg_effect(doc, img.view_box, depth),
        }
    }
}

/// The surface operations [`draw_svg`] appends, and its outcome: nothing for
/// a failed load; a recursion-limit error at depth zero; otherwise the inner
/// document's operations bracketed by a transform push/pop, itself bracketed
/// by a clip push/pop when the fitted content overflows the view box.
pub open spec fn svg_effect(doc: Option<Document>, vb: ViewBox, depth: nat) -> (Seq<SurfaceOp>,
Result<(), DrawError>)
    decreases depth, 1int, 0int,
{
    match doc {
        Option::None => (Seq::<SurfaceOp>::empty(), Result::<(), DrawError>::Ok(())),
        Option::Some(d) => {
            if depth == 0 {
                (
                    Seq::<SurfaceOp>::empty(),
                    Result::<(), DrawError>::Err(DrawError::RecursionLimitExceeded),
                )
            } else {
                let ts = vb_transform(vb, d.size);
                let inner = images_effect(d.images@, (depth - 1) as nat);
                match vb_clip(vb, d.size) {
                    Option::Some(c) => (
                        seq![SurfaceOp::PushClip(c), SurfaceOp::PushTransform(ts)] + inner.0
                            + seq![SurfaceOp::PopTransform, SurfaceOp::PopClip],
                        inner.1,
                    ),
                    Option::None => (
                        seq![SurfaceOp::PushTransform(ts)] + inner.0 + seq![SurfaceOp::PopTransform],
                        inner.1,
                    ),
                }
            }
        },
    }
}

/// The surface operations of rendering a sequence of elements in order,
/// stopping after the first element that fails.
pub open spec fn images_effect(imgs: Seq<ImageNode>, depth: nat) -> (Seq<SurfaceOp>, Result<
    (),
    DrawError,
>)
    decreases depth, 3int, imgs.len(),
{
    if imgs.len() == 0 {
        (Seq::<SurfaceOp>::empty(), Result::<(), DrawError>::Ok(()))
    } else {
        let first = node_effect(imgs[0], depth);
        if first.1 is Err {
            first
        } else {
            let rest = images_effect(imgs.subrange(1, imgs.len() as int), depth);
            (first.0 + rest.0, rest.1)
        }
    }
}

/// The render configuration derived for an embedded sub-document: fit mode
/// forced to the document's intrinsic size, so the outer view box is not
/// applied twice, and any inherited background fill cleared, so the
/// sub-document does not paint a backdrop inside its parent.
pub fn sub_options(opt: &Options) -> (r: Options)
    ensures
        r.fit_to == FitTo::Original,
        r.background is None,
{
    let _ = opt;
    Options { fit_to: FitTo::Original, background: None }
}

/// Draws one image element onto the surface and returns its bounding
/// rectangle: the view box's target rectangle, whether or not anything was
/// drawn. Invisible elements draw nothing; raster content is refused;
/// vector content is drawn by [`draw_svg`]. The surface's clip and
/// transform stacks and its written images are left exactly as found.
pub fn draw(image: &ImageNode, opt: &Options, surface: &mut Surface, depth: u32) -> (r: Result<
    Rect,
    DrawError,
>)
    requires
        node_wf(*image, depth as nat),
    ensures
        final(surface).clip_stack@ == old(surface).clip_stack@,
        final(surface).transform_stack@ == old(surface).transform_stack@,
        final(surface).writes@ == old(surface).writes@,
        final(surface).trace@ == old(surface).trace@ + node_effect(*image, depth as nat).0,
        r == (match node_effect(*image, depth as nat).1 {
            Result::Ok(_) => Result::<Rect, DrawError>::Ok(image.view_box.rect),
            Result::Err(e) => Result::<Rect, DrawError>::Err(e),
        }),
        image.visibility != Visibility::Visible ==> final(surface).trace@ == old(surface).trace@
            && r == Result::<Rect, DrawError>::Ok(image.view_box.rect),
    decreases depth, 2int,
{
    if image.visibility != Visibility::Visible {
        proof {
            assert(surface.trace@ + Seq::<SurfaceOp>::empty() =~= surface.trace@);
        }
        return Result::Ok(image.view_box.rect);
    }
    match &image.kind {
        ImageKind::Raster(_) => {
            proof {
                assert(surface.trace@ + Seq::<SurfaceOp>::empty() =~= surface.trace@);
            }
            Result::Err(DrawError::UnsupportedFormat)
        },
        ImageKind::Vector(doc) => {
            match draw_svg(doc, &image.view_box, opt, surface, depth) {
                Result::Ok(_) => Result::Ok(image.view_box.rect),
                Result::Err(e) => Result::Err(e),
            }
        },
    }
}

/// Draws an embedded vector document into the view box. A failed load
/// (`None`) draws nothing and is no error. Otherwise the surface gets the
/// fitting clip (when one is needed) and transform pushed, the document's
/// elements are rendered one level deeper into the recursion budget, and
/// both are popped again on every path — the stacks always end exactly as
/// they began.
pub fn draw_svg(
    doc: &Option<Document>,
    view_box: &ViewBox,
    opt: &Options,
    surface: &mut Surface,
    depth: u32,
) -> (r: Result<(), DrawError>)
    requires
        vb_valid(*view_box),
        embedded_wf(*doc, depth as nat),
    ensures
        final(surface).clip_stack@ == old(surface).clip_stack@,
        final(surface).transform_stack@ == old(surface).transform_stack@,
        final(surface).writes@ == old(surface).writes@,
        final(surface).trace@ == old(surface).trace@ + svg_effect(
            *doc,
            *view_box,
            depth as nat,
        ).0,
        r == svg_effect(*doc, *view_box, depth as nat).1,
        (*doc) is None ==> final(surface).trace@ == old(surface).trace@ && r is Ok,
    decreases depth, 1int,
{
    match doc {
        Option::None => {
            proof {
                assert(surface.trace@ + Seq::<SurfaceOp>::empty() =~= surface.trace@);
            }
            Result::Ok(())
        },
        Option::Some(d) => {
            if depth == 0 {
                proof {
                    assert(surface.trace@ + Seq::<SurfaceOp>::empty() =~= surface.trace@);
                }
                return Result::Err(DrawError::RecursionLimitExceeded);
            }
            let sub = sub_options(opt);
            let (ts, clip) = view_box_to_transform_with_clip(view_box, &d.size);
            let has_clip = match &clip {
                Option::Some(c) => {
                    surface.push_clip(*c);
                    true
                },
                Option::None => false,
            };
            surface.push_transform(ts);
            let res = render_to_canvas(d, &sub, surface, depth - 1);
            surface.pop_transform();
            if has_clip {
                surface.pop_clip();
            }
            proof {
                assert(surface.trace@ =~= old(surface).trace@ + svg_effect(
                    *doc,
                    *view_box,
                    depth as nat,
                ).0);
            }
            res
        },
    }
}

/// Renders every image element of a document onto the surface, in document
/// order, stopping at the first element that fails and reporting its error.
/// The surface's clip and transform stacks and its written images are left
/// exactly as found.
pub fn render_to_canvas(doc: &Document, opt: &Options, surface: &mut Surface, depth: u32) -> (r:
    Result<(), DrawError>)
    requires
        doc_wf(*doc, depth as nat),
    ensures
        final(surface).clip_stack@ == old(surface).clip_stack@,
        final(surface).transform_stack@ == old(surface).transform_stack@,
        final(surface).writes@ == old(surface).writes@,
        final(surface).trace@ == old(surface).trace@ + images_effect(
            doc.images@,
            depth as nat,
        ).0,
        r == images_effect(doc.images@, depth as nat).1,
    decreases depth, 3int,
{
    let ghost s = doc.images@;
    let ghost d_nat = depth as nat;
    let ghost trace0 = surface.trace@;
    let ghost clips0 = surface.clip_stack@;
    let ghost transforms0 = surface.transform_stack@;
    let ghost writes0 = surface.writes@;
    let ghost mut done: Seq<SurfaceOp> = Seq::empty();
    proof {
        assert(s.subrange(0, s.len() as int) =~= s);
        assert(done + images_effect(s, d_nat).0 =~= images_effect(s, d_nat).0);
        assert(trace0 + done =~= trace0);
    }
    let n = doc.images.len();
    let mut i: usize = 0;
    while i < n
        invariant
            n == doc.images@.len(),
            s == doc.images@,
            d_nat == depth as nat,
            doc_wf(*doc, d_nat),
            i <= n,
            clips0 == old(surface).clip_stack@,
            transforms0 == old(surface).transform_stack@,
            writes0 == old(surface).writes@,
            trace0 == old(surface).trace@,
            surface.clip_stack@ == clips0,
            surface.transform_stack@ == transforms0,
            surface.writes@ == writes0,
            surface.trace@ == trace0 + done,
            images_effect(s, d_nat).0 == done + images_effect(
                s.subrange(i as int, n as int),
                d_nat,
            ).0,
            images_effect(s, d_nat).1 == images_effect(s.subrange(i as int, n as int), d_nat).1,
        decreases n - i,
    {
        proof {
            assert(node_wf(doc.images@[i as int], d_nat));
        }
        let r = draw(&doc.images[i], opt, surface, depth);
        proof {
            let rest = s.subrange(i as int, n as int);
            assert(rest.len() > 0);
            assert(rest[0] == s[i as int]);
            assert(rest.subrange(1, rest.len() as int) =~= s.subrange(i as int + 1, n as int));
        }
        match r {
            Result::Err(e) => {
                proof {
                    let eff = node_effect(s[i as int], d_nat);
                    assert(images_effect(s.subrange(i as int, n as int), d_nat) == eff);
                    done = done + eff.0;
                    assert(surface.trace@ =~= trace0 + done);
                    assert(images_effect(s, d_nat).0 =~= done);
                    assert(surface.trace@ =~= trace0 + images_effect(s, d_nat).0);
                }
                return Result::Err(e);
            },
            Result::Ok(_) => {
                proof {
                    let eff = node_effect(s[i as int], d_nat);
                    let rest = s.subrange(i as int, n as int);
                    assert(images_effect(rest, d_nat).0 == eff.0 + images_effect(
                        s.subrange(i as int + 1, n as int),
                        d_nat,
                    ).0);
                    assert(images_effect(rest, d_nat).1 == images_effect(
                        s.subrange(i as int + 1, n as int),
                        d_nat,
                    ).1);
                    done = done + eff.0;
                    assert(surface.trace@ =~= trace0 + done);
                    assert(images_effect(s, d_nat).0 =~= done + images_effect(
                        s.subrange(i as int + 1, n as int),
                        d_nat,
                    ).0);
                }
            },
        }
        i += 1;
    }
    proof {
        assert(s.subrange(n as int, n as int) =~= Seq::<ImageNode>::empty());
        assert(images_effect(Seq::<ImageNode>::empty(), d_nat).0 =~= Seq::<SurfaceOp>::empty());
        assert(images_effect(s, d_nat).0 =~= done);
        assert(surface.trace@ =~= trace0 + images_effect(s, d_nat).0);
    }
    Result::Ok(())
}

} // verus!
