use resvg_core::geom::Rect;
use resvg_core::path::{convert_path, draw, BuilderFillRule, PathBuilder, PathOp};
use resvg_core::tree::{Fill, FillRule, Paint, Path, PathSegment};

fn mk_path(segments: Vec<PathSegment>, fill: Option<Fill>) -> Path {
    Path { id: String::from("p"), fill, stroke: None, segments }
}

fn black() -> Paint {
    Paint::Color { red: 0, green: 0, blue: 0 }
}

#[test]
fn auto_close_defeat() {
    // An open subpath returning exactly onto its start is nudged one
    // micro-unit in X so a backend cannot auto-close it.
    let segments = vec![
        PathSegment::MoveTo { x: 0, y: 0 },
        PathSegment::LineTo { x: 10_000_000, y: 0 },
        PathSegment::LineTo { x: 0, y: 0 },
    ];
    let mut b = PathBuilder::new();
    convert_path(&segments, FillRule::NonZero, &mut b);
    assert_eq!(b.ops.len(), 3);
    assert!(b.ops[0] == PathOp::MoveTo { x: 0, y: 0 });
    assert!(b.ops[1] == PathOp::LineTo { x: 10_000_000, y: 0 });
    assert!(b.ops[2] == PathOp::LineTo { x: -1, y: 0 });
}

#[test]
fn explicit_close_never_perturbs() {
    // With an explicit ClosePath the line back to the start is an interior
    // segment: its coordinates pass through unchanged.
    let segments = vec![
        PathSegment::MoveTo { x: 0, y: 0 },
        PathSegment::LineTo { x: 10_000_000, y: 0 },
        PathSegment::LineTo { x: 0, y: 0 },
        PathSegment::ClosePath,
    ];
    let mut b = PathBuilder::new();
    convert_path(&segments, FillRule::NonZero, &mut b);
    assert_eq!(b.ops.len(), 4);
    assert!(b.ops[2] == PathOp::LineTo { x: 0, y: 0 });
    assert!(b.ops[3] == PathOp::Close);
}

#[test]
fn curve_endpoint_nudged() {
    let segments = vec![
        PathSegment::MoveTo { x: 1, y: 2 },
        PathSegment::CurveTo { x1: 5, y1: 5, x2: 6, y2: 6, x: 1, y: 2 },
    ];
    let mut b = PathBuilder::new();
    convert_path(&segments, FillRule::NonZero, &mut b);
    assert!(b.ops[1] == PathOp::CurveTo { x1: 5, y1: 5, x2: 6, y2: 6, x: 0, y: 2 });
}

#[test]
fn mid_subpath_coincidence_not_nudged() {
    // A segment landing on the subpath start is only nudged when it is the
    // last segment of its subpath.
    let segments = vec![
        PathSegment::MoveTo { x: 0, y: 0 },
        PathSegment::LineTo { x: 0, y: 0 },
        PathSegment::LineTo { x: 5, y: 5 },
    ];
    let mut b = PathBuilder::new();
    convert_path(&segments, FillRule::NonZero, &mut b);
    assert!(b.ops[1] == PathOp::LineTo { x: 0, y: 0 });
    assert!(b.ops[2] == PathOp::LineTo { x: 5, y: 5 });
}

#[test]
fn each_subpath_nudged_independently() {
    let segments = vec![
        PathSegment::MoveTo { x: 0, y: 0 },
        PathSegment::LineTo { x: 0, y: 0 },
        PathSegment::MoveTo { x: 3, y: 3 },
        PathSegment::LineTo { x: 3, y: 3 },
    ];
    let mut b = PathBuilder::new();
    convert_path(&segments, FillRule::NonZero, &mut b);
    assert!(b.ops[1] == PathOp::LineTo { x: -1, y: 0 });
    assert!(b.ops[2] == PathOp::MoveTo { x: 3, y: 3 });
    assert!(b.ops[3] == PathOp::LineTo { x: 2, y: 3 });
}

#[test]
fn nudge_saturates_at_minimum() {
    let segments = vec![
        PathSegment::MoveTo { x: i64::MIN, y: 0 },
        PathSegment::LineTo { x: i64::MIN, y: 0 },
    ];
    let mut b = PathBuilder::new();
    convert_path(&segments, FillRule::NonZero, &mut b);
    assert!(b.ops[1] == PathOp::LineTo { x: i64::MIN, y: 0 });
}

#[test]
fn fill_rule_mapping() {
    let segments = vec![PathSegment::MoveTo { x: 0, y: 0 }];
    let mut b = PathBuilder::new();
    convert_path(&segments, FillRule::EvenOdd, &mut b);
    assert!(b.fill_rule == Some(BuilderFillRule::OddEven));

    let mut b2 = PathBuilder::new();
    convert_path(&segments, FillRule::NonZero, &mut b2);
    assert!(b2.fill_rule == Some(BuilderFillRule::Winding));
}

#[test]
fn fill_rule_defaults_to_winding_without_fill() {
    let path = mk_path(vec![PathSegment::MoveTo { x: 0, y: 0 }], None);
    let (b, _) = draw(&path);
    assert!(b.fill_rule == Some(BuilderFillRule::Winding));
}

#[test]
fn fill_rule_taken_from_fill_descriptor() {
    let fill = Some(Fill { paint: black(), rule: FillRule::EvenOdd });
    let path = mk_path(
        vec![PathSegment::MoveTo { x: 0, y: 0 }, PathSegment::LineTo { x: 4, y: 4 }],
        fill,
    );
    let (b, _) = draw(&path);
    assert!(b.fill_rule == Some(BuilderFillRule::OddEven));
}

#[test]
fn bounding_box_spans_control_points() {
    let segments = vec![
        PathSegment::MoveTo { x: 2, y: 3 },
        PathSegment::CurveTo { x1: -5, y1: 10, x2: 40, y2: -7, x: 8, y: 9 },
    ];
    let path = mk_path(segments, None);
    let (_, bbox) = draw(&path);
    assert!(bbox == Rect { min_x: -5, min_y: -7, max_x: 40, max_y: 10 });
}

#[test]
fn bounding_box_of_empty_builder_is_zero() {
    let b = PathBuilder::new();
    assert!(b.bounding_box() == Rect { min_x: 0, min_y: 0, max_x: 0, max_y: 0 });
}

#[test]
fn draw_records_all_segments() {
    let segments = vec![
        PathSegment::MoveTo { x: 1, y: 1 },
        PathSegment::LineTo { x: 2, y: 2 },
        PathSegment::ClosePath,
    ];
    let path = mk_path(segments, None);
    let (b, bbox) = draw(&path);
    assert_eq!(b.ops.len(), 3);
    assert!(b.ops[0] == PathOp::MoveTo { x: 1, y: 1 });
    assert!(b.ops[1] == PathOp::LineTo { x: 2, y: 2 });
    assert!(b.ops[2] == PathOp::Close);
    assert!(bbox == Rect { min_x: 1, min_y: 1, max_x: 2, max_y: 2 });
}
