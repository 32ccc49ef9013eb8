use vector_image::geom::Rect;
use vector_image::geom::ScreenSize;
use vector_image::viewbox::AlignPair;
use vector_image::viewbox::Aspect;
use vector_image::viewbox::AxisAlign;
use vector_image::viewbox::ViewBox;
use vector_image::viewbox::fit_view_box;
use vector_image::viewbox::image_rect;
use vector_image::viewbox::view_box_to_transform_with_clip;

fn meet(x: AxisAlign, y: AxisAlign) -> Aspect {
    Aspect { align: Some(AlignPair { x, y }), slice: false }
}

fn slice(x: AxisAlign, y: AxisAlign) -> Aspect {
    Aspect { align: Some(AlignPair { x, y }), slice: true }
}

#[test]
fn matching_view_box_mid_mid_is_identity() {
    let vb = ViewBox {
        rect: Rect { x: 10, y: 20, width: 100, height: 50 },
        aspect: meet(AxisAlign::Mid, AxisAlign::Mid),
    };
    let size = ScreenSize { width: 100, height: 50 };
    assert_eq!(image_rect(&vb, &size), Rect { x: 10, y: 20, width: 100, height: 50 });
}

#[test]
fn square_into_wider_rect_min_mid_lands_flush_and_centered() {
    let vb = ViewBox {
        rect: Rect { x: 0, y: 0, width: 200, height: 100 },
        aspect: meet(AxisAlign::Min, AxisAlign::Mid),
    };
    let size = ScreenSize { width: 50, height: 50 };
    assert_eq!(image_rect(&vb, &size), Rect { x: 0, y: 0, width: 100, height: 100 });
}

#[test]
fn meet_scales_down_and_centers() {
    let vb = ViewBox {
        rect: Rect { x: 0, y: 0, width: 100, height: 100 },
        aspect: meet(AxisAlign::Mid, AxisAlign::Mid),
    };
    let size = ScreenSize { width: 200, height: 100 };
    assert_eq!(image_rect(&vb, &size), Rect { x: 0, y: 25, width: 100, height: 50 });
}

#[test]
fn max_alignment_lands_flush_to_high_edge() {
    let vb = ViewBox {
        rect: Rect { x: 0, y: 0, width: 100, height: 100 },
        aspect: meet(AxisAlign::Max, AxisAlign::Max),
    };
    let size = ScreenSize { width: 200, height: 100 };
    assert_eq!(image_rect(&vb, &size), Rect { x: 0, y: 50, width: 100, height: 50 });
}

#[test]
fn align_none_stretches_to_target() {
    let vb = ViewBox {
        rect: Rect { x: 5, y: 6, width: 70, height: 80 },
        aspect: Aspect { align: None, slice: false },
    };
    let size = ScreenSize { width: 200, height: 100 };
    assert_eq!(fit_view_box(&size, &vb), ScreenSize { width: 70, height: 80 });
    assert_eq!(image_rect(&vb, &size), Rect { x: 5, y: 6, width: 70, height: 80 });
}

#[test]
fn degenerate_scale_clamps_to_one_pixel() {
    let vb = ViewBox {
        rect: Rect { x: 0, y: 0, width: 1, height: 1 },
        aspect: meet(AxisAlign::Min, AxisAlign::Min),
    };
    let size = ScreenSize { width: 1000, height: 1 };
    assert_eq!(fit_view_box(&size, &vb), ScreenSize { width: 1, height: 1 });
}

#[test]
fn fit_without_overflow_yields_no_clip() {
    let vb = ViewBox {
        rect: Rect { x: 0, y: 0, width: 100, height: 100 },
        aspect: meet(AxisAlign::Mid, AxisAlign::Mid),
    };
    let size = ScreenSize { width: 200, height: 100 };
    let (ts, clip) = view_box_to_transform_with_clip(&vb, &size);
    assert!(clip.is_none());
    assert_eq!(ts.sx_num, 100);
    assert_eq!(ts.sx_den, 200);
    assert_eq!(ts.sy_num, 50);
    assert_eq!(ts.sy_den, 100);
    assert_eq!(ts.tx, 0);
    assert_eq!(ts.ty, 25);
}

#[test]
fn slice_overflow_yields_view_box_clip() {
    let vb = ViewBox {
        rect: Rect { x: 0, y: 0, width: 100, height: 100 },
        aspect: slice(AxisAlign::Mid, AxisAlign::Mid),
    };
    let size = ScreenSize { width: 200, height: 100 };
    let (ts, clip) = view_box_to_transform_with_clip(&vb, &size);
    assert_eq!(clip, Some(Rect { x: 0, y: 0, width: 100, height: 100 }));
    // covering scale is 1: the fitted size is 200 x 100, overflowing in x.
    assert_eq!(ts.sx_num, 200);
    assert_eq!(ts.sx_den, 200);
    assert_eq!(ts.sy_num, 100);
    assert_eq!(ts.sy_den, 100);
    assert_eq!(ts.tx, -50);
    assert_eq!(ts.ty, 0);
}
