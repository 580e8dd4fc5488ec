//! The hit tester: maps a screen point to the topmost document path under
//! it, for hover and selection feedback.
//!
//! The screen point is taken to document space through the inverse
//! transform, rounded to whole document units, and tested against each
//! path in document order: a path is hit when the point lies inside the
//! polygon it closes into (even-odd rule) or within [`HIT_TOLERANCE`]
//! document units of one of its segments. The first match wins, matching
//! the document's z-order; the operation is read-only.

use vstd::prelude::*;

verus! {

use crate::fixedpoint::{SCALE, COORD_LIMIT, tdiv, lemma_tdiv_bounds, div_trunc};
use crate::viewport::ViewportState;
use crate::transform::{Point, inv_axis, screen_to_document, DOC_POINT_LIMIT};

/// How close to a path a point must come to count as a hit, in whole
/// document units.
pub const HIT_TOLERANCE: i64 = 3;

/// A loaded document as the core sees it: an extent in subunits and the
/// point sequences of its paths, in document-space subunits, in z-order
/// (last drawn on top, first in this list tested first... the list is in
/// document order and the first hit in it is returned).
pub struct Document {
    /// Document width in subunits.
    pub width: i64,
    /// Document height in subunits.
    pub height: i64,
    /// One point sequence per path, in document order.
    pub paths: Vec<Vec<Point>>,
}

/// A coordinate in whole document units, rounded toward zero.
pub open spec fn unit(v: int) -> int {
    tdiv(v, SCALE as int)
}

/// All points of one path within machine bounds.
pub open spec fn path_wf(path: Seq<Point>) -> bool {
    forall|j: int| 0 <= j < path.len() ==> {
        &&& -COORD_LIMIT <= #[trigger] path[j].x <= COORD_LIMIT
        &&& -COORD_LIMIT <= path[j].y <= COORD_LIMIT
    }
}

/// Whether `(px, py)` lies within `tol` units of the vertex `a`; all in
/// whole units except `a`, which is converted here.
pub open spec fn pt_within(a: Point, px: int, py: int, tol: int) -> bool {
    let ax = unit(a.x as int);
    let ay = unit(a.y as int);
    (px - ax) * (px - ax) + (py - ay) * (py - ay) <= tol * tol
}

/// Whether `(px, py)` lies within `tol` units of the segment from `a` to
/// `b`: the squared distance to the nearest point of the segment, split
/// into the two endpoint cases and the interior case, compared against
/// `tol` squared (the interior case multiplied through by the squared
/// segment length to stay integral).
pub open spec fn seg_within(a: Point, b: Point, px: int, py: int, tol: int) -> bool {
    let ax = unit(a.x as int);
    let ay = unit(a.y as int);
    let bx = unit(b.x as int);
    let by = unit(b.y as int);
    let wx = px - ax;
    let wy = py - ay;
    let dx = bx - ax;
    let dy = by - ay;
    let dotp = wx * dx + wy * dy;
    let dd = dx * dx + dy * dy;
    if dd == 0 || dotp <= 0 {
        wx * wx + wy * wy <= tol * tol
    } else if dotp >= dd {
        (px - bx) * (px - bx) + (py - by) * (py - by) <= tol * tol
    } else {
        (wx * wx + wy * wy) * dd - dotp * dotp <= tol * tol * dd
    }
}

/// Whether `(px, py)` comes within `tol` units of the polyline: of some
/// segment, or of the sole vertex of a one-point path.
pub open spec fn path_near(path: Seq<Point>, px: int, py: int, tol: int) -> bool {
    ||| exists|i: int|
        0 <= i < path.len() - 1 && #[trigger] seg_within(path[i], path[i + 1], px, py, tol)
    ||| (path.len() == 1 && pt_within(path[0], px, py, tol))
}

/// Whether the edge from `a` to `b` crosses the horizontal ray running in
/// the positive x direction from `(px, py)`: the edge must straddle the
/// ray's y, and the point must lie on the left of the edge, tested with
/// the cross product to avoid division.
pub open spec fn edge_crosses(a: Point, b: Point, px: int, py: int) -> bool {
    let ax = unit(a.x as int);
    let ay = unit(a.y as int);
    let bx = unit(b.x as int);
    let by = unit(b.y as int);
    ((ay > py) != (by > py)) && {
        let t = (bx - ax) * (py - ay) - (px - ax) * (by - ay);
        if by > ay {
            t > 0
        } else {
            t < 0
        }
    }
}

/// How many edges of the closed polygon, from the `i`-th on, cross the
/// ray from `(px, py)`; the last edge closes back to the first vertex.
pub open spec fn crossings_from(path: Seq<Point>, px: int, py: int, i: int) -> nat
    decreases path.len() - i,
{
    if i < 0 || i >= path.len() {
        0
    } else {
        (if edge_crosses(
            path[i],
            path[if i + 1 == path.len() {
                0
            } else {
                i + 1
            }],
            px,
            py,
        ) {
            1nat
        } else {
            0nat
        }) + crossings_from(path, px, py, i + 1)
    }
}

/// Whether `(px, py)` lies inside the polygon the path closes into, by
/// the even-odd rule: an odd number of edges cross the ray from it.
pub open spec fn path_inside(path: Seq<Point>, px: int, py: int) -> bool {
    path.len() >= 3 && crossings_from(path, px, py, 0) % 2 == 1
}

/// Whether the path is hit by the probe point `(px, py)`, whole units.
pub open spec fn path_hit(path: Seq<Point>, px: int, py: int) -> bool {
    path_inside(path, px, py) || path_near(path, px, py, HIT_TOLERANCE as int)
}

/// The probe's whole-unit document x for a screen point under a view.
pub open spec fn probe_x(vs: ViewportState, screen: Point) -> int {
    unit(inv_axis(vs.zoom as int, vs.pan_x as int, screen.x as int))
}

/// The probe's whole-unit document y for a screen point under a view.
pub open spec fn probe_y(vs: ViewportState, screen: Point) -> int {
    unit(inv_axis(vs.zoom as int, vs.pan_y as int, screen.y as int))
}

/// Whether the given path is hit by the given screen point under a view.
pub open spec fn path_hit_under_view(vs: ViewportState, screen: Point, path: Seq<Point>) -> bool {
    path_hit(path, probe_x(vs, screen), probe_y(vs, screen))
}

impl Document {
    /// Extent positive and bounded, every path point within bounds.
    pub open spec fn wf(self) -> bool {
        &&& 0 < self.width <= COORD_LIMIT
        &&& 0 < self.height <= COORD_LIMIT
        &&& forall|i: int| 0 <= i < self.paths@.len() ==> path_wf(#[trigger] self.paths@[i]@)
    }

    /// Builds a document from a load result, accepting it exactly when
    /// the extent is positive and everything is within machine bounds.
    pub fn new(width: i64, height: i64, paths: Vec<Vec<Point>>) -> (r: Option<Document>)
        ensures
            match r {
                Some(d) => {
                    &&& d.wf()
                    &&& d.width == width
                    &&& d.height == height
                    &&& d.paths@ == paths@
                },
                None => !{
                    &&& 0 < width <= COORD_LIMIT
                    &&& 0 < height <= COORD_LIMIT
                    &&& forall|i: int| 0 <= i < paths@.len() ==> path_wf(#[trigger] paths@[i]@)
                },
            },
    {
        if !(0 < width && width <= COORD_LIMIT && 0 < height && height <= COORD_LIMIT) {
            return None;
        }
        let mut i: usize = 0;
        while i < paths.len()
            invariant
                i <= paths@.len(),
                forall|k: int| 0 <= k < i ==> path_wf(#[trigger] paths@[k]@),
            decreases paths@.len() - i,
        {
            if !path_in_bounds(&paths[i]) {
                return None;
            }
            i += 1;
        }
        Some(Document { width, height, paths })
    }
}

/// Checks one path's points against the machine bounds.
fn path_in_bounds(path: &Vec<Point>) -> (b: bool)
    ensures
        b == path_wf(path@),
{
    let mut j: usize = 0;
    while j < path.len()
        invariant
            j <= path@.len(),
            forall|k: int| 0 <= k < j ==> {
                &&& -COORD_LIMIT <= #[trigger] path@[k].x <= COORD_LIMIT
                &&& -COORD_LIMIT <= path@[k].y <= COORD_LIMIT
            },
        decreases path@.len() - j,
    {
        let p = path[j];
        if !(-COORD_LIMIT <= p.x && p.x <= COORD_LIMIT && -COORD_LIMIT <= p.y && p.y
            <= COORD_LIMIT) {
            return false;
        }
        j += 1;
    }
    true
}

/// Maps the screen point to document space and returns the index of the
/// first path it hits, in document order; `None` exactly when it hits no
/// path.
pub fn hit_test(vs: &ViewportState, doc: &Document, screen: Point) -> (r: Option<usize>)
    requires
        vs.wf(),
        doc.wf(),
        -COORD_LIMIT <= screen.x <= COORD_LIMIT,
        -COORD_LIMIT <= screen.y <= COORD_LIMIT,
    ensures
        match r {
            Some(i) => {
                &&& i < doc.paths@.len()
                &&& path_hit_under_view(*vs, screen, doc.paths@[i as int]@)
                &&& forall|j: int|
                    0 <= j < i ==> !path_hit_under_view(*vs, screen, #[trigger] doc.paths@[j]@)
            },
            None => forall|j: int|
                0 <= j < doc.paths@.len() ==> !path_hit_under_view(
                    *vs,
                    screen,
                    #[trigger] doc.paths@[j]@,
                ),
        },
{
    let d = screen_to_document(vs, screen);
    let px = unit_of(d.x);
    let py = unit_of(d.y);
    let mut i: usize = 0;
    while i < doc.paths.len()
        invariant
            i <= doc.paths@.len(),
            doc.wf(),
            px == probe_x(*vs, screen),
            py == probe_y(*vs, screen),
            -2_000_000 <= px <= 2_000_000,
            -2_000_000 <= py <= 2_000_000,
            forall|j: int|
                0 <= j < i ==> !path_hit_under_view(*vs, screen, #[trigger] doc.paths@[j]@),
        decreases doc.paths@.len() - i,
    {
        if path_hit_exec(&doc.paths[i], px, py) {
            return Some(i);
        }
        i += 1;
    }
    None
}

/// One coordinate rounded to whole document units.
fn unit_of(v: i64) -> (u: i64)
    requires
        -DOC_POINT_LIMIT <= v <= DOC_POINT_LIMIT,
    ensures
        u == unit(v as int),
        -2_000_000 <= u <= 2_000_000,
{
    proof {
        lemma_tdiv_bounds(v as int, SCALE as int, DOC_POINT_LIMIT as int, SCALE as int);
    }
    div_trunc(v, SCALE)
}

/// A product of two unit-scale coordinates, carried wide.
fn mul_narrow(a: i64, b: i64) -> (r: i128)
    requires
        -10_000_000 <= a <= 10_000_000,
        -10_000_000 <= b <= 10_000_000,
    ensures
        r == a * b,
        -100_000_000_000_000 <= r <= 100_000_000_000_000,
{
    assert(-100_000_000_000_000 <= (a as int) * (b as int) <= 100_000_000_000_000)
        by (nonlinear_arith)
        requires
            -10_000_000 <= a as int <= 10_000_000,
            -10_000_000 <= b as int <= 10_000_000,
    ;
    (a as i128) * (b as i128)
}

/// A product of two wide intermediates.
fn mul_wide(a: i128, b: i128) -> (r: i128)
    requires
        -1_000_000_000_000_000 <= a <= 1_000_000_000_000_000,
        -1_000_000_000_000_000 <= b <= 1_000_000_000_000_000,
    ensures
        r == a * b,
        -1_000_000_000_000_000_000_000_000_000_000 <= r
            <= 1_000_000_000_000_000_000_000_000_000_000,
{
    assert(-1_000_000_000_000_000_000_000_000_000_000 <= (a as int) * (b as int)
        <= 1_000_000_000_000_000_000_000_000_000_000) by (nonlinear_arith)
        requires
            -1_000_000_000_000_000 <= a as int <= 1_000_000_000_000_000,
            -1_000_000_000_000_000 <= b as int <= 1_000_000_000_000_000,
    ;
    a * b
}

/// Whether the probe is within `tol` units of the vertex `a`.
fn pt_within_exec(a: Point, px: i64, py: i64, tol: i64) -> (r: bool)
    requires
        -COORD_LIMIT <= a.x <= COORD_LIMIT,
        -COORD_LIMIT <= a.y <= COORD_LIMIT,
        -2_000_000 <= px <= 2_000_000,
        -2_000_000 <= py <= 2_000_000,
        0 <= tol <= 1_000_000,
    ensures
        r == pt_within(a, px as int, py as int, tol as int),
{
    let ax = unit_of(a.x);
    let ay = unit_of(a.y);
    let sq = mul_narrow(px - ax, px - ax) + mul_narrow(py - ay, py - ay);
    let tolsq = mul_narrow(tol, tol);
    sq <= tolsq
}

/// Whether the probe is within `tol` units of the segment `a`-`b`.
fn seg_within_exec(a: Point, b: Point, px: i64, py: i64, tol: i64) -> (r: bool)
    requires
        -COORD_LIMIT <= a.x <= COORD_LIMIT,
        -COORD_LIMIT <= a.y <= COORD_LIMIT,
        -COORD_LIMIT <= b.x <= COORD_LIMIT,
        -COORD_LIMIT <= b.y <= COORD_LIMIT,
        -2_000_000 <= px <= 2_000_000,
        -2_000_000 <= py <= 2_000_000,
        0 <= tol <= 1_000_000,
    ensures
        r == seg_within(a, b, px as int, py as int, tol as int),
{
    let ax = unit_of(a.x);
    let ay = unit_of(a.y);
    let bx = unit_of(b.x);
    let by = unit_of(b.y);
    let wx = px - ax;
    let wy = py - ay;
    let dx = bx - ax;
    let dy = by - ay;
    let dotp = mul_narrow(wx, dx) + mul_narrow(wy, dy);
    let dd = mul_narrow(dx, dx) + mul_narrow(dy, dy);
    let tolsq = mul_narrow(tol, tol);
    if dd == 0 || dotp <= 0 {
        mul_narrow(wx, wx) + mul_narrow(wy, wy) <= tolsq
    } else if dotp >= dd {
        mul_narrow(px - bx, px - bx) + mul_narrow(py - by, py - by) <= tolsq
    } else {
        let wwsum = mul_narrow(wx, wx) + mul_narrow(wy, wy);
        let lhs = mul_wide(wwsum, dd) - mul_wide(dotp, dotp);
        let rhs = mul_wide(tolsq, dd);
        lhs <= rhs
    }
}

/// Whether the edge `a`-`b` crosses the ray running right from the probe.
fn edge_crosses_exec(a: Point, b: Point, px: i64, py: i64) -> (r: bool)
    requires
        -COORD_LIMIT <= a.x <= COORD_LIMIT,
        -COORD_LIMIT <= a.y <= COORD_LIMIT,
        -COORD_LIMIT <= b.x <= COORD_LIMIT,
        -COORD_LIMIT <= b.y <= COORD_LIMIT,
        -2_000_000 <= px <= 2_000_000,
        -2_000_000 <= py <= 2_000_000,
    ensures
        r == edge_crosses(a, b, px as int, py as int),
{
    let ax = unit_of(a.x);
    let ay = unit_of(a.y);
    let bx = unit_of(b.x);
    let by = unit_of(b.y);
    if (ay > py) == (by > py) {
        return false;
    }
    let t = mul_narrow(bx - ax, py - ay) - mul_narrow(px - ax, by - ay);
    if by > ay {
        t > 0
    } else {
        t < 0
    }
}

/// Whether the probe lies inside the polygon the path closes into.
fn path_inside_exec(path: &Vec<Point>, px: i64, py: i64) -> (r: bool)
    requires
        path_wf(path@),
        -2_000_000 <= px <= 2_000_000,
        -2_000_000 <= py <= 2_000_000,
    ensures
        r == path_inside(path@, px as int, py as int),
{
    if path.len() < 3 {
        return false;
    }
    let n = path.len();
    let mut crossed: usize = 0;
    let mut i: usize = 0;
    while i < n
        invariant
            path_wf(path@),
            -2_000_000 <= px <= 2_000_000,
            -2_000_000 <= py <= 2_000_000,
            n == path@.len(),
            3 <= n,
            i <= n,
            crossed <= i,
            crossings_from(path@, px as int, py as int, 0) == crossed + crossings_from(
                path@,
                px as int,
                py as int,
                i as int,
            ),
        decreases n - i,
    {
        let next = if i + 1 == n {
            0
        } else {
            i + 1
        };
        if edge_crosses_exec(path[i], path[next], px, py) {
            crossed += 1;
        }
        i += 1;
    }
    crossed % 2 == 1
}

/// Whether the probe comes within `tol` units of the polyline.
fn path_near_exec(path: &Vec<Point>, px: i64, py: i64, tol: i64) -> (r: bool)
    requires
        path_wf(path@),
        -2_000_000 <= px <= 2_000_000,
        -2_000_000 <= py <= 2_000_000,
        0 <= tol <= 1_000_000,
    ensures
        r == path_near(path@, px as int, py as int, tol as int),
{
    if path.len() == 0 {
        return false;
    }
    if path.len() == 1 {
        return pt_within_exec(path[0], px, py, tol);
    }
    let mut i: usize = 0;
    while i < path.len() - 1
        invariant
            path_wf(path@),
            -2_000_000 <= px <= 2_000_000,
            -2_000_000 <= py <= 2_000_000,
            0 <= tol <= 1_000_000,
            i <= path@.len(),
            2 <= path@.len(),
            forall|k: int|
                0 <= k < i ==> !(#[trigger] seg_within(
                    path@[k],
                    path@[k + 1],
                    px as int,
                    py as int,
                    tol as int,
                )),
        decreases path@.len() - i,
    {
        if seg_within_exec(path[i], path[i + 1], px, py, tol) {
            return true;
        }
        i += 1;
    }
    false
}

/// Whether the probe hits the path, by either rule.
fn path_hit_exec(path: &Vec<Point>, px: i64, py: i64) -> (r: bool)
    requires
        path_wf(path@),
        -2_000_000 <= px <= 2_000_000,
        -2_000_000 <= py <= 2_000_000,
    ensures
        r == path_hit(path@, px as int, py as int),
{
    if path_inside_exec(path, px, py) {
        true
    } else {
        path_near_exec(path, px, py, HIT_TOLERANCE)
    }
}

} // verus!
