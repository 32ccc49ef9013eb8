use vector_image::geom::Rect;
use vector_image::geom::ScreenSize;
use vector_image::pixels::Image;
use vector_image::pixels::ImageData;
use vector_image::render::Document;
use vector_image::render::DrawError;
use vector_image::render::FitTo;
use vector_image::render::ImageKind;
use vector_image::render::ImageNode;
use vector_image::render::Options;
use vector_image::render::Visibility;
use vector_image::render::draw;
use vector_image::render::draw_svg;
use vector_image::render::render_to_canvas;
use vector_image::render::sub_options;
use vector_image::surface::Surface;
use vector_image::surface::SurfaceOp;
use vector_image::viewbox::AlignPair;
use vector_image::viewbox::Aspect;
use vector_image::viewbox::AxisAlign;
use vector_image::viewbox::ViewBox;

fn opts() -> Options {
    Options { fit_to: FitTo::Original, background: None }
}

fn mid_mid_slice(rect: Rect) -> ViewBox {
    ViewBox {
        rect,
        aspect: Aspect {
            align: Some(AlignPair { x: AxisAlign::Mid, y: AxisAlign::Mid }),
            slice: true,
        },
    }
}

fn mid_mid_meet(rect: Rect) -> ViewBox {
    ViewBox {
        rect,
        aspect: Aspect {
            align: Some(AlignPair { x: AxisAlign::Mid, y: AxisAlign::Mid }),
            slice: false,
        },
    }
}

#[test]
fn invisible_image_draws_nothing_and_reports_geometry() {
    let node = ImageNode {
        visibility: Visibility::Hidden,
        view_box: mid_mid_meet(Rect { x: 3, y: 4, width: 10, height: 10 }),
        kind: ImageKind::Raster(vec![1, 2, 3]),
    };
    let mut surface = Surface::new();
    let r = draw(&node, &opts(), &mut surface, 4);
    assert_eq!(r, Ok(Rect { x: 3, y: 4, width: 10, height: 10 }));
    assert!(surface.trace.is_empty());
    assert!(surface.writes.is_empty());
    assert!(surface.clip_stack.is_empty());
    assert!(surface.transform_stack.is_empty());
}

#[test]
fn visible_raster_image_is_refused() {
    let node = ImageNode {
        visibility: Visibility::Visible,
        view_box: mid_mid_meet(Rect { x: 0, y: 0, width: 10, height: 10 }),
        kind: ImageKind::Raster(vec![9, 9, 9]),
    };
    let mut surface = Surface::new();
    let r = draw(&node, &opts(), &mut surface, 4);
    assert_eq!(r, Err(DrawError::UnsupportedFormat));
    assert!(surface.trace.is_empty());
    assert!(surface.writes.is_empty());
}

#[test]
fn malformed_embedded_document_is_a_silent_no_op() {
    let vb = mid_mid_meet(Rect { x: 0, y: 0, width: 10, height: 10 });
    let mut surface = Surface::new();
    surface.push_clip(Rect { x: 1, y: 1, width: 2, height: 2 });
    let before = surface.trace.clone();
    let r = draw_svg(&None, &vb, &opts(), &mut surface, 4);
    assert_eq!(r, Ok(()));
    assert_eq!(surface.trace, before);
    assert_eq!(surface.clip_stack.len(), 1);
    assert!(surface.transform_stack.is_empty());
    assert!(surface.writes.is_empty());
}

#[test]
fn exhausted_recursion_budget_is_a_typed_error() {
    let doc = Document { size: ScreenSize { width: 10, height: 10 }, images: Vec::new() };
    let vb = mid_mid_meet(Rect { x: 0, y: 0, width: 10, height: 10 });
    let mut surface = Surface::new();
    let r = draw_svg(&Some(doc), &vb, &opts(), &mut surface, 0);
    assert_eq!(r, Err(DrawError::RecursionLimitExceeded));
    assert!(surface.trace.is_empty());
}

#[test]
fn empty_document_gets_one_balanced_transform_cycle() {
    let doc = Document { size: ScreenSize { width: 10, height: 10 }, images: Vec::new() };
    let vb = mid_mid_meet(Rect { x: 0, y: 0, width: 10, height: 10 });
    let mut surface = Surface::new();
    let r = draw_svg(&Some(doc), &vb, &opts(), &mut surface, 1);
    assert_eq!(r, Ok(()));
    assert_eq!(surface.trace.len(), 2);
    assert!(matches!(surface.trace[0], SurfaceOp::PushTransform(_)));
    assert!(matches!(surface.trace[1], SurfaceOp::PopTransform));
    assert!(surface.clip_stack.is_empty());
    assert!(surface.transform_stack.is_empty());
}

#[test]
fn recursive_embedding_runs_two_nested_balanced_cycles() {
    // Innermost document: nothing to draw.
    let innermost = Document { size: ScreenSize { width: 100, height: 100 }, images: Vec::new() };
    // Middle document: wider than its 100 x 50 view box, sliced, so its
    // render pushes a clip and a transform.
    let inner_vb = mid_mid_slice(Rect { x: 0, y: 0, width: 100, height: 50 });
    let middle = Document {
        size: ScreenSize { width: 200, height: 100 },
        images: vec![ImageNode {
            visibility: Visibility::Visible,
            view_box: inner_vb,
            kind: ImageKind::Vector(Some(innermost)),
        }],
    };
    // Outer element: the middle document is wider than the square view box,
    // sliced, so the outer render pushes a clip and a transform too.
    let outer_rect = Rect { x: 0, y: 0, width: 100, height: 100 };
    let node = ImageNode {
        visibility: Visibility::Visible,
        view_box: mid_mid_slice(outer_rect),
        kind: ImageKind::Vector(Some(middle)),
    };
    let mut surface = Surface::new();
    let r = draw(&node, &opts(), &mut surface, 2);
    assert_eq!(r, Ok(outer_rect));
    // Two nested push/pop cycles, both clipped, and both stacks balanced.
    assert_eq!(surface.trace.len(), 8);
    assert!(matches!(surface.trace[0], SurfaceOp::PushClip(_)));
    assert!(matches!(surface.trace[1], SurfaceOp::PushTransform(_)));
    assert!(matches!(surface.trace[2], SurfaceOp::PushClip(_)));
    assert!(matches!(surface.trace[3], SurfaceOp::PushTransform(_)));
    assert!(matches!(surface.trace[4], SurfaceOp::PopTransform));
    assert!(matches!(surface.trace[5], SurfaceOp::PopClip));
    assert!(matches!(surface.trace[6], SurfaceOp::PopTransform));
    assert!(matches!(surface.trace[7], SurfaceOp::PopClip));
    assert!(surface.clip_stack.is_empty());
    assert!(surface.transform_stack.is_empty());
    assert!(surface.writes.is_empty());
}

#[test]
fn nested_depth_beyond_budget_fails_but_stays_balanced() {
    let innermost = Document { size: ScreenSize { width: 10, height: 10 }, images: Vec::new() };
    let vb = mid_mid_meet(Rect { x: 0, y: 0, width: 10, height: 10 });
    let middle = Document {
        size: ScreenSize { width: 10, height: 10 },
        images: vec![ImageNode {
            visibility: Visibility::Visible,
            view_box: vb,
            kind: ImageKind::Vector(Some(innermost)),
        }],
    };
    let node = ImageNode {
        visibility: Visibility::Visible,
        view_box: vb,
        kind: ImageKind::Vector(Some(middle)),
    };
    let mut surface = Surface::new();
    let r = draw(&node, &opts(), &mut surface, 1);
    assert_eq!(r, Err(DrawError::RecursionLimitExceeded));
    assert!(surface.clip_stack.is_empty());
    assert!(surface.transform_stack.is_empty());
}

#[test]
fn render_stops_at_the_first_failing_element() {
    let vb = mid_mid_meet(Rect { x: 0, y: 0, width: 10, height: 10 });
    let doc = Document {
        size: ScreenSize { width: 10, height: 10 },
        images: vec![
            ImageNode {
                visibility: Visibility::Collapse,
                view_box: vb,
                kind: ImageKind::Raster(vec![1, 2, 3]),
            },
            ImageNode {
                visibility: Visibility::Visible,
                view_box: vb,
                kind: ImageKind::Raster(vec![1, 2, 3]),
            },
            ImageNode {
                visibility: Visibility::Visible,
                view_box: vb,
                kind: ImageKind::Vector(None),
            },
        ],
    };
    let mut surface = Surface::new();
    let r = render_to_canvas(&doc, &opts(), &mut surface, 3);
    assert_eq!(r, Err(DrawError::UnsupportedFormat));
    assert!(surface.trace.is_empty());
}

#[test]
fn writing_an_image_is_recorded() {
    let mut surface = Surface::new();
    surface.write_image(Image {
        data: ImageData::RGB(vec![1, 2, 3]),
        size: ScreenSize { width: 1, height: 1 },
    });
    assert_eq!(surface.writes.len(), 1);
    assert_eq!(surface.trace, vec![SurfaceOp::Write]);
}

#[test]
fn sub_document_options_are_constrained() {
    let parent = Options {
        fit_to: FitTo::Width(640),
        background: Some(vector_image::render::Color { red: 1, green: 2, blue: 3 }),
    };
    let sub = sub_options(&parent);
    assert_eq!(sub.fit_to, FitTo::Original);
    assert!(sub.background.is_none());
}
