//! The path segment normalizer: converts an ordered list of abstract path
//! segments into a backend path-builder sequence, nudging the endpoint of a
//! subpath that returns exactly onto its start so that backends which
//! auto-close such subpaths keep them open, and resolves the fill rule.

use vstd::prelude::*;

use crate::geom::Rect;
use crate::tree::{Fill, FillRule, Path, PathSegment};

verus! {

/// Size of the endpoint nudge, in micro-units (one millionth of a user-space
/// unit).
pub const AUTO_CLOSE_NUDGE: i64 = 1;

/// The fill-rule setting of the backend path builder.
#[derive(Clone, Copy, PartialEq, Eq, Structural, Debug)]
pub enum BuilderFillRule {
    Winding,
    OddEven,
}

/// One recorded call into the backend path builder.
#[derive(Clone, Copy, PartialEq, Eq, Structural, Debug)]
pub enum PathOp {
    MoveTo { x: i64, y: i64 },
    LineTo { x: i64, y: i64 },
    CurveTo { x1: i64, y1: i64, x2: i64, y2: i64, x: i64, y: i64 },
    Close,
}

/// A recording path builder: the ordered builder calls made so far and the
/// fill-rule setting, exactly as a backend would receive them.
#[derive(Debug)]
pub struct PathBuilder {
    pub ops: Vec<PathOp>,
    pub fill_rule: Option<BuilderFillRule>,
}

impl PathBuilder {
    /// A builder with no calls recorded and no fill rule set.
    pub fn new() -> (b: PathBuilder)
        ensures
            b.ops@ =~= Seq::<PathOp>::empty(),
            b.fill_rule is None,
    {
        PathBuilder { ops: Vec::new(), fill_rule: None }
    }

    pub fn move_to(&mut self, x: i64, y: i64)
        ensures
            final(self).ops@ == old(self).ops@.push(PathOp::MoveTo { x, y }),
            final(self).fill_rule == old(self).fill_rule,
    {
        self.ops.push(PathOp::MoveTo { x, y });
    }

    pub fn line_to(&mut self, x: i64, y: i64)
        ensures
            final(self).ops@ == old(self).ops@.push(PathOp::LineTo { x, y }),
            final(self).fill_rule == old(self).fill_rule,
    {
        self.ops.push(PathOp::LineTo { x, y });
    }

    pub fn curve_to(&mut self, x1: i64, y1: i64, x2: i64, y2: i64, x: i64, y: i64)
        ensures
            final(self).ops@ == old(self).ops@.push(PathOp::CurveTo { x1, y1, x2, y2, x, y }),
            final(self).fill_rule == old(self).fill_rule,
    {
        self.ops.push(PathOp::CurveTo { x1, y1, x2, y2, x, y });
    }

    pub fn close_path(&mut self)
        ensures
            final(self).ops@ == old(self).ops@.push(PathOp::Close),
            final(self).fill_rule == old(self).fill_rule,
    {
        self.ops.push(PathOp::Close);
    }

    pub fn set_fill_rule(&mut self, rule: BuilderFillRule)
        ensures
            final(self).ops@ == old(self).ops@,
            final(self).fill_rule == Some(rule),
    {
        self.fill_rule = Some(rule);
    }

    /// The rectangle spanned by the coordinates of all recorded calls,
    /// control points included (a conservative hull of the path), or the
    /// zero rectangle when no call carries a coordinate.
    pub fn bounding_box(&self) -> (r: Rect)
        ensures
            ops_points(self.ops@).len() == 0 ==> r == (Rect {
                min_x: 0,
                min_y: 0,
                max_x: 0,
                max_y: 0,
            }),
            ops_points(self.ops@).len() > 0 ==> is_bbox(r, ops_points(self.ops@)),
    {
        let mut acc: Option<Rect> = None;
        let len = self.ops.len();
        let mut i: usize = 0;
        while i < len
            invariant
                len == self.ops@.len(),
                i <= len,
                bbox_inv(acc, ops_points(self.ops@.subrange(0, i as int))),
            decreases len - i,
        {
            let ghost pts_old = ops_points(self.ops@.subrange(0, i as int));
            proof {
                assert(self.ops@.subrange(0, i + 1).drop_last() =~= self.ops@.subrange(
                    0,
                    i as int,
                ));
                assert(self.ops@.subrange(0, i + 1).last() == self.ops@[i as int]);
            }
            match self.ops[i] {
                PathOp::MoveTo { x, y } => {
                    proof {
                        lemma_bbox_extend(acc, pts_old, (x, y));
                        assert(pts_old + op_points(self.ops@[i as int]) =~= pts_old.push((x, y)));
                    }
                    acc = Some(rect_include(acc, x, y));
                },
                PathOp::LineTo { x, y } => {
                    proof {
                        lemma_bbox_extend(acc, pts_old, (x, y));
                        assert(pts_old + op_points(self.ops@[i as int]) =~= pts_old.push((x, y)));
                    }
                    acc = Some(rect_include(acc, x, y));
                },
                PathOp::CurveTo { x1, y1, x2, y2, x, y } => {
                    proof {
                        lemma_bbox_extend(acc, pts_old, (x1, y1));
                        lemma_bbox_extend(
                            Some(rect_extend(acc, (x1, y1))),
                            pts_old.push((x1, y1)),
                            (x2, y2),
                        );
                        lemma_bbox_extend(
                            Some(rect_extend(Some(rect_extend(acc, (x1, y1))), (x2, y2))),
                            pts_old.push((x1, y1)).push((x2, y2)),
                            (x, y),
                        );
                        assert(pts_old + op_points(self.ops@[i as int]) =~= pts_old.push(
                            (x1, y1),
                        ).push((x2, y2)).push((x, y)));
                    }
                    let first = rect_include(acc, x1, y1);
                    let second = rect_include(Some(first), x2, y2);
                    acc = Some(rect_include(Some(second), x, y));
                },
                PathOp::Close => {
                    proof {
                        assert(pts_old + op_points(self.ops@[i as int]) =~= pts_old);
                    }
                },
            }
            i = i + 1;
        }
        proof {
            assert(self.ops@.subrange(0, len as int) =~= self.ops@);
        }
        match acc {
            Some(r) => r,
            None => Rect { min_x: 0, min_y: 0, max_x: 0, max_y: 0 },
        }
    }
}

/// The coordinate pairs a recorded call hands the backend, control points
/// included.
pub open spec fn op_points(op: PathOp) -> Seq<(i64, i64)> {
    match op {
        PathOp::MoveTo { x, y } => seq![(x, y)],
        PathOp::LineTo { x, y } => seq![(x, y)],
        PathOp::CurveTo { x1, y1, x2, y2, x, y } => seq![(x1, y1), (x2, y2), (x, y)],
        PathOp::Close => seq![],
    }
}

/// All coordinate pairs of a call sequence, in order.
pub open spec fn ops_points(ops: Seq<PathOp>) -> Seq<(i64, i64)>
    decreases ops.len(),
{
    if ops.len() == 0 {
        seq![]
    } else {
        ops_points(ops.drop_last()) + op_points(ops.last())
    }
}

pub open spec fn point_in_rect(r: Rect, p: (i64, i64)) -> bool {
    r.min_x <= p.0 <= r.max_x && r.min_y <= p.1 <= r.max_y
}

/// `r` is the tight axis-aligned bounding rectangle of `pts`: it contains
/// every point and each of its four bounds is attained.
pub open spec fn is_bbox(r: Rect, pts: Seq<(i64, i64)>) -> bool {
    &&& forall|i: int| 0 <= i < pts.len() ==> point_in_rect(r, #[trigger] pts[i])
    &&& exists|i: int| 0 <= i < pts.len() && (#[trigger] pts[i]).0 == r.min_x
    &&& exists|i: int| 0 <= i < pts.len() && (#[trigger] pts[i]).0 == r.max_x
    &&& exists|i: int| 0 <= i < pts.len() && (#[trigger] pts[i]).1 == r.min_y
    &&& exists|i: int| 0 <= i < pts.len() && (#[trigger] pts[i]).1 == r.max_y
}

/// Accumulator invariant of the bounding-box scan.
pub open spec fn bbox_inv(acc: Option<Rect>, pts: Seq<(i64, i64)>) -> bool {
    match acc {
        None => pts.len() == 0,
        Some(r) => pts.len() > 0 && is_bbox(r, pts),
    }
}

/// The accumulator rectangle grown to include one more point.
pub open spec fn rect_extend(acc: Option<Rect>, p: (i64, i64)) -> Rect {
    match acc {
        None => Rect { min_x: p.0, min_y: p.1, max_x: p.0, max_y: p.1 },
        Some(r) => Rect {
            min_x: if p.0 < r.min_x {
                p.0
            } else {
                r.min_x
            },
            min_y: if p.1 < r.min_y {
                p.1
            } else {
                r.min_y
            },
            max_x: if p.0 > r.max_x {
                p.0
            } else {
                r.max_x
            },
            max_y: if p.1 > r.max_y {
                p.1
            } else {
                r.max_y
            },
        },
    }
}

fn rect_include(acc: Option<Rect>, x: i64, y: i64) -> (r: Rect)
    ensures
        r == rect_extend(acc, (x, y)),
{
    match acc {
        None => Rect { min_x: x, min_y: y, max_x: x, max_y: y },
        Some(r) => Rect {
            min_x: if x < r.min_x {
                x
            } else {
                r.min_x
            },
            min_y: if y < r.min_y {
                y
            } else {
                r.min_y
            },
            max_x: if x > r.max_x {
                x
            } else {
                r.max_x
            },
            max_y: if y > r.max_y {
                y
            } else {
                r.max_y
            },
        },
    }
}

proof fn lemma_bbox_extend(acc: Option<Rect>, pts: Seq<(i64, i64)>, p: (i64, i64))
    requires
        bbox_inv(acc, pts),
    ensures
        bbox_inv(Some(rect_extend(acc, p)), pts.push(p)),
{
    let r = rect_extend(acc, p);
    let pts2 = pts.push(p);
    assert(pts2[pts.len() as int] == p);
    assert(forall|i: int| 0 <= i < pts.len() ==> pts2[i] == #[trigger] pts[i]);
    match acc {
        None => {
            assert(point_in_rect(r, pts2[0]));
        },
        Some(r0) => {
            assert(forall|i: int| 0 <= i < pts2.len() ==> point_in_rect(r, #[trigger] pts2[i]));
            let w_min_x = choose|i: int| 0 <= i < pts.len() && (#[trigger] pts[i]).0 == r0.min_x;
            let w_max_x = choose|i: int| 0 <= i < pts.len() && (#[trigger] pts[i]).0 == r0.max_x;
            let w_min_y = choose|i: int| 0 <= i < pts.len() && (#[trigger] pts[i]).1 == r0.min_y;
            let w_max_y = choose|i: int| 0 <= i < pts.len() && (#[trigger] pts[i]).1 == r0.max_y;
            if p.0 < r0.min_x {
                assert(pts2[pts.len() as int].0 == r.min_x);
            } else {
                assert(pts2[w_min_x].0 == r.min_x);
            }
            if p.0 > r0.max_x {
                assert(pts2[pts.len() as int].0 == r.max_x);
            } else {
                assert(pts2[w_max_x].0 == r.max_x);
            }
            if p.1 < r0.min_y {
                assert(pts2[pts.len() as int].1 == r.min_y);
            } else {
                assert(pts2[w_min_y].1 == r.min_y);
            }
            if p.1 > r0.max_y {
                assert(pts2[pts.len() as int].1 == r.max_y);
            } else {
                assert(pts2[w_max_y].1 == r.max_y);
            }
        },
    }
}

/// Whether segment `i` is the last segment of its subpath: the final segment
/// overall, or one whose successor starts a new subpath.
pub open spec fn last_subpath_seg(l: Seq<PathSegment>, i: int) -> bool {
    i == l.len() - 1 || l[i + 1] is MoveTo
}

/// The terminal-point nudge: one micro-unit toward negative X, saturating at
/// the representable minimum.
pub open spec fn nudge(x: i64) -> i64 {
    if x == i64::MIN {
        x
    } else {
        (x - AUTO_CLOSE_NUDGE) as i64
    }
}

/// The builder call owed for one segment, given whether it is the last of
/// its subpath and the current subpath start `(mx, my)`. A line or curve
/// that ends a subpath exactly (bit-for-bit) on the subpath's start point
/// has its terminal X nudged; nothing else is ever altered.
pub open spec fn seg_op(s: PathSegment, last: bool, mx: i64, my: i64) -> PathOp {
    match s {
        PathSegment::MoveTo { x, y } => PathOp::MoveTo { x, y },
        PathSegment::LineTo { x, y } => PathOp::LineTo {
            x: if last && x == mx && y == my {
                nudge(x)
            } else {
                x
            },
            y,
        },
        PathSegment::CurveTo { x1, y1, x2, y2, x, y } => PathOp::CurveTo {
            x1,
            y1,
            x2,
            y2,
            x: if last && x == mx && y == my {
                nudge(x)
            } else {
                x
            },
            y,
        },
        PathSegment::ClosePath => PathOp::Close,
    }
}

/// The subpath start after processing one segment.
pub open spec fn seg_move(s: PathSegment, mx: i64, my: i64) -> (i64, i64) {
    match s {
        PathSegment::MoveTo { x, y } => (x, y),
        _ => (mx, my),
    }
}

/// The builder calls owed for the segments from index `i` on, with subpath
/// start `(mx, my)`.
pub open spec fn path_ops_from(l: Seq<PathSegment>, i: int, mx: i64, my: i64) -> Seq<PathOp>
    decreases l.len() - i,
{
    if i < 0 || i >= l.len() {
        seq![]
    } else {
        seq![seg_op(l[i], last_subpath_seg(l, i), mx, my)] + path_ops_from(
            l,
            i + 1,
            seg_move(l[i], mx, my).0,
            seg_move(l[i], mx, my).1,
        )
    }
}

/// The full builder call sequence owed for a segment list; the initial
/// subpath start is the origin.
pub open spec fn path_ops(l: Seq<PathSegment>) -> Seq<PathOp> {
    path_ops_from(l, 0, 0, 0)
}

/// Fill rule to builder setting.
pub open spec fn builder_rule(r: FillRule) -> BuilderFillRule {
    match r {
        FillRule::NonZero => BuilderFillRule::Winding,
        FillRule::EvenOdd => BuilderFillRule::OddEven,
    }
}

/// The fill rule of a path: taken from its fill descriptor, defaulting to
/// non-zero when no fill is set.
pub open spec fn fill_rule_of(fill: Option<Fill>) -> FillRule {
    match fill {
        Some(f) => f.rule,
        None => FillRule::NonZero,
    }
}

/// Feeds a segment list into the path builder, nudging the terminal X of a
/// subpath-final line or curve that lands bit-exactly on the subpath start,
/// and sets the builder's fill rule.
pub fn convert_path(list: &[PathSegment], rule: FillRule, p_path: &mut PathBuilder)
    ensures
        final(p_path).ops@ == old(p_path).ops@ + path_ops(list@),
        final(p_path).fill_rule == Some(builder_rule(rule)),
{
    let ghost old_ops = p_path.ops@;
    let mut prev_mx: i64 = 0;
    let mut prev_my: i64 = 0;

    let len = list.len();
    let mut i: usize = 0;
    while i < len
        invariant
            len == list@.len(),
            i <= len,
            old_ops + path_ops(list@) == p_path.ops@ + path_ops_from(
                list@,
                i as int,
                prev_mx,
                prev_my,
            ),
            p_path.fill_rule == old(p_path).fill_rule,
        decreases len - i,
    {
        let seg1 = list[i];

        let is_last_subpath_seg: bool = if i == len - 1 {
            true
        } else {
            match list[i + 1] {
                PathSegment::MoveTo { .. } => true,
                _ => false,
            }
        };
        proof {
            assert(is_last_subpath_seg == last_subpath_seg(list@, i as int));
        }
        let ghost op = seg_op(list@[i as int], is_last_subpath_seg, prev_mx, prev_my);
        proof {
            assert(p_path.ops@ + (seq![op] + path_ops_from(
                list@,
                i + 1,
                seg_move(list@[i as int], prev_mx, prev_my).0,
                seg_move(list@[i as int], prev_mx, prev_my).1,
            )) =~= p_path.ops@.push(op) + path_ops_from(
                list@,
                i + 1,
                seg_move(list@[i as int], prev_mx, prev_my).0,
                seg_move(list@[i as int], prev_mx, prev_my).1,
            ));
        }

        match seg1 {
            PathSegment::MoveTo { x, y } => {
                p_path.move_to(x, y);
                prev_mx = x;
                prev_my = y;
            },
            PathSegment::LineTo { x, y } => {
                let mut tx = x;
                if is_last_subpath_seg {
                    if x == prev_mx && y == prev_my {
                        tx = if x == i64::MIN {
                            x
                        } else {
                            x - AUTO_CLOSE_NUDGE
                        };
                    }
                }
                p_path.line_to(tx, y);
            },
            PathSegment::CurveTo { x1, y1, x2, y2, x, y } => {
                let mut tx = x;
                if is_last_subpath_seg {
                    if x == prev_mx && y == prev_my {
                        tx = if x == i64::MIN {
                            x
                        } else {
                            x - AUTO_CLOSE_NUDGE
                        };
                    }
                }
                p_path.curve_to(x1, y1, x2, y2, tx, y);
            },
            PathSegment::ClosePath => {
                p_path.close_path();
            },
        }

        i = i + 1;
    }
    proof {
        assert(path_ops_from(list@, len as int, prev_mx, prev_my) =~= Seq::<PathOp>::empty());
        assert(old_ops + path_ops(list@) =~= p_path.ops@);
    }

    match rule {
        FillRule::NonZero => p_path.set_fill_rule(BuilderFillRule::Winding),
        FillRule::EvenOdd => p_path.set_fill_rule(BuilderFillRule::OddEven),
    }
}

/// Normalizes one path element: resolves its fill rule (non-zero when no
/// fill is set), records the builder calls for its segments, and returns the
/// builder together with the bounding box the builder computed.
pub fn draw(elem: &Path) -> (r: (PathBuilder, Rect))
    requires
        elem.segments@.len() > 0,
    ensures
        r.0.ops@ == path_ops(elem.segments@),
        r.0.fill_rule == Some(builder_rule(fill_rule_of(elem.fill))),
        ops_points(r.0.ops@).len() == 0 ==> r.1 == (Rect {
            min_x: 0,
            min_y: 0,
            max_x: 0,
            max_y: 0,
        }),
        ops_points(r.0.ops@).len() > 0 ==> is_bbox(r.1, ops_points(r.0.ops@)),
{
    let mut p_path = PathBuilder::new();

    let fill_rule = match elem.fill {
        Some(fill) => fill.rule,
        None => FillRule::NonZero,
    };

    convert_path(elem.segments.as_slice(), fill_rule, &mut p_path);

    let bbox = p_path.bounding_box();

    (p_path, bbox)
}

/// Every segment yields exactly one builder call.
pub proof fn lemma_path_ops_len(l: Seq<PathSegment>, i: int, mx: i64, my: i64)
    requires
        0 <= i <= l.len(),
    ensures
        path_ops_from(l, i, mx, my).len() == l.len() - i,
    decreases l.len() - i,
{
    if i < l.len() {
        lemma_path_ops_len(l, i + 1, seg_move(l[i], mx, my).0, seg_move(l[i], mx, my).1);
    }
}

/// A segment whose owed call does not depend on the running subpath start:
/// one that is not the last of its subpath, a move, or an explicit close.
pub open spec fn op_fixed(l: Seq<PathSegment>, j: int) -> bool {
    !last_subpath_seg(l, j) || l[j] is MoveTo || l[j] is ClosePath
}

proof fn lemma_ops_from_fixed(l: Seq<PathSegment>, i: int, mx: i64, my: i64, j: int)
    requires
        0 <= i <= j < l.len(),
        op_fixed(l, j),
    ensures
        path_ops_from(l, i, mx, my)[j - i] == seg_op(l[j], last_subpath_seg(l, j), 0, 0),
    decreases j - i,
{
    lemma_path_ops_len(l, i, mx, my);
    if i < j {
        lemma_ops_from_fixed(l, i + 1, seg_move(l[i], mx, my).0, seg_move(l[i], mx, my).1, j);
    }
}

/// A line or curve that is not the last segment of its subpath — in
/// particular one followed by an explicit close — is handed to the builder
/// with its coordinates exactly as given, never nudged.
pub proof fn lemma_interior_segment_unperturbed(l: Seq<PathSegment>, j: int)
    requires
        0 <= j,
        j + 1 < l.len(),
        !(l[j + 1] is MoveTo),
    ensures
        path_ops(l).len() == l.len(),
        path_ops(l)[j] == seg_op(l[j], false, 0, 0),
{
    lemma_path_ops_len(l, 0, 0, 0);
    lemma_ops_from_fixed(l, 0, 0, 0, j);
}

/// An explicit close always closes the subpath through the builder, with no
/// coordinate to perturb.
pub proof fn lemma_close_path_exact(l: Seq<PathSegment>, j: int)
    requires
        0 <= j < l.len(),
        l[j] is ClosePath,
    ensures
        path_ops(l).len() == l.len(),
        path_ops(l)[j] == PathOp::Close,
{
    lemma_path_ops_len(l, 0, 0, 0);
    lemma_ops_from_fixed(l, 0, 0, 0, j);
}

/// Fill-rule mapping: the even-odd rule always yields the even-odd builder
/// setting, the non-zero rule — including the default taken when no fill is
/// set — always the winding setting.
pub proof fn lemma_fill_rule_mapping(fill: Option<Fill>)
    ensures
        builder_rule(FillRule::EvenOdd) == BuilderFillRule::OddEven,
        builder_rule(FillRule::NonZero) == BuilderFillRule::Winding,
        fill is None ==> builder_rule(fill_rule_of(fill)) == BuilderFillRule::Winding,
{
}

} // verus!
