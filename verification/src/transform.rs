//! The coordinate mapper: the affine mapping between document space and
//! screen space, parameterized by the zoom and pan of a `ViewportState`.
//!
//! The forward direction scales first and then translates, so zoom is
//! anchored at the document origin and `apply_zoom_delta` compensates the
//! pan explicitly. The mapper holds no state of its own: a transform is
//! always recomputed from the latest `ViewportState`.

use vstd::prelude::*;

verus! {

use crate::fixedpoint::{
    SCALE, ZOOM_MIN, ZOOM_MAX, COORD_LIMIT, PAN_LIMIT, tdiv, iabs, lemma_tdiv_bounds,
    lemma_scale_unscale, div_trunc,
};
use crate::viewport::{ViewportState, zoom_after, pan_after_zoom};

/// Largest magnitude `screen_to_document` can return, in subunits.
pub const DOC_POINT_LIMIT: i64 = 2_000_000_000_000;

/// Largest magnitude `document_to_screen` can return, in subunits.
pub const SCREEN_POINT_LIMIT: i64 = 1_100_000_000_000;

/// A point in either coordinate space, in fixed-point subunits.
#[derive(Clone, Copy, PartialEq, Eq, Structural, Debug)]
pub struct Point {
    pub x: i64,
    pub y: i64,
}

/// One axis of the document-to-screen mapping:
/// `screen = document * zoom / SCALE + pan`.
pub open spec fn fwd_axis(zoom: int, pan: int, v: int) -> int {
    tdiv(v * zoom, SCALE as int) + pan
}

/// One axis of the screen-to-document mapping:
/// `document = (screen - pan) * SCALE / zoom`.
pub open spec fn inv_axis(zoom: int, pan: int, s: int) -> int {
    tdiv((s - pan) * (SCALE as int), zoom)
}

/// An affine map `p -> (p + pre) * num / den + post` on each axis. Both
/// the forward and the inverse transform of a view take this shape.
#[derive(Clone, Copy, PartialEq, Eq, Structural, Debug)]
pub struct Affine2D {
    pub pre_x: i64,
    pub pre_y: i64,
    pub num: i64,
    pub den: i64,
    pub post_x: i64,
    pub post_y: i64,
}

impl Affine2D {
    /// Bounds under which applying the map neither overflows nor leaves
    /// the representable range.
    pub open spec fn wf(self) -> bool {
        &&& 0 < self.num <= ZOOM_MAX
        &&& 0 < self.den <= ZOOM_MAX
        &&& -PAN_LIMIT <= self.pre_x <= PAN_LIMIT
        &&& -PAN_LIMIT <= self.pre_y <= PAN_LIMIT
        &&& -PAN_LIMIT <= self.post_x <= PAN_LIMIT
        &&& -PAN_LIMIT <= self.post_y <= PAN_LIMIT
    }

    /// The map's value at a point, one axis at a time.
    pub open spec fn apply_spec(self, x: int, y: int) -> (int, int) {
        (
            tdiv((x + self.pre_x) * self.num, self.den as int) + self.post_x,
            tdiv((y + self.pre_y) * self.num, self.den as int) + self.post_y,
        )
    }
}

/// The document-to-screen transform of the given view, queried once per
/// redraw by the host's rasterizer.
pub fn forward_transform(vs: &ViewportState) -> (a: Affine2D)
    requires
        vs.wf(),
    ensures
        a.wf(),
        a == (Affine2D {
            pre_x: 0,
            pre_y: 0,
            num: vs.zoom,
            den: SCALE,
            post_x: vs.pan_x,
            post_y: vs.pan_y,
        }),
        forall|x: int, y: int| #[trigger]
            a.apply_spec(x, y) == (
                fwd_axis(vs.zoom as int, vs.pan_x as int, x),
                fwd_axis(vs.zoom as int, vs.pan_y as int, y),
            ),
{
    Affine2D {
        pre_x: 0,
        pre_y: 0,
        num: vs.zoom,
        den: SCALE,
        post_x: vs.pan_x,
        post_y: vs.pan_y,
    }
}

/// The screen-to-document transform of the given view: the algebraic
/// inverse of `forward_transform`. It exists for every well-formed view,
/// since the invariant keeps the zoom positive.
pub fn inverse_transform(vs: &ViewportState) -> (a: Affine2D)
    requires
        vs.wf(),
    ensures
        a.wf(),
        a == (Affine2D {
            pre_x: (-vs.pan_x) as i64,
            pre_y: (-vs.pan_y) as i64,
            num: SCALE,
            den: vs.zoom,
            post_x: 0,
            post_y: 0,
        }),
        forall|x: int, y: int| #[trigger]
            a.apply_spec(x, y) == (
                inv_axis(vs.zoom as int, vs.pan_x as int, x),
                inv_axis(vs.zoom as int, vs.pan_y as int, y),
            ),
{
    Affine2D {
        pre_x: -vs.pan_x,
        pre_y: -vs.pan_y,
        num: SCALE,
        den: vs.zoom,
        post_x: 0,
        post_y: 0,
    }
}

/// Applies an affine map to a point.
pub fn apply_transform(a: &Affine2D, p: Point) -> (q: Point)
    requires
        a.wf(),
        -COORD_LIMIT <= p.x <= COORD_LIMIT,
        -COORD_LIMIT <= p.y <= COORD_LIMIT,
    ensures
        (q.x as int, q.y as int) == a.apply_spec(p.x as int, p.y as int),
{
    let x = apply_axis(p.x, a.pre_x, a.num, a.den, a.post_x);
    let y = apply_axis(p.y, a.pre_y, a.num, a.den, a.post_y);
    Point { x, y }
}

/// One axis of `apply_transform`.
fn apply_axis(v: i64, pre: i64, num: i64, den: i64, post: i64) -> (r: i64)
    requires
        0 < num <= ZOOM_MAX,
        0 < den <= ZOOM_MAX,
        -PAN_LIMIT <= pre <= PAN_LIMIT,
        -PAN_LIMIT <= post <= PAN_LIMIT,
        -COORD_LIMIT <= v <= COORD_LIMIT,
    ensures
        r == tdiv((v + pre) * num, den as int) + post,
{
    let m = v + pre;
    assert(-2_000_000_000_000_000_000 <= m * num <= 2_000_000_000_000_000_000)
        by (nonlinear_arith)
        requires
            -200_000_000_000 <= m <= 200_000_000_000,
            0 < num <= 10_000_000,
    ;
    let prod = m * num;
    proof {
        lemma_tdiv_bounds(prod as int, den as int, 2_000_000_000_000_000_000, 1);
    }
    let q = div_trunc(prod, den);
    q + post
}

/// Maps a screen point to its document coordinates under the given view.
pub fn screen_to_document(vs: &ViewportState, p: Point) -> (q: Point)
    requires
        vs.wf(),
        -COORD_LIMIT <= p.x <= COORD_LIMIT,
        -COORD_LIMIT <= p.y <= COORD_LIMIT,
    ensures
        q.x == inv_axis(vs.zoom as int, vs.pan_x as int, p.x as int),
        q.y == inv_axis(vs.zoom as int, vs.pan_y as int, p.y as int),
        -DOC_POINT_LIMIT <= q.x <= DOC_POINT_LIMIT,
        -DOC_POINT_LIMIT <= q.y <= DOC_POINT_LIMIT,
{
    let x = inv_axis_exec(vs.zoom, vs.pan_x, p.x);
    let y = inv_axis_exec(vs.zoom, vs.pan_y, p.y);
    Point { x, y }
}

/// One axis of `screen_to_document`.
fn inv_axis_exec(zoom: i64, pan: i64, s: i64) -> (d: i64)
    requires
        ZOOM_MIN <= zoom <= ZOOM_MAX,
        -PAN_LIMIT <= pan <= PAN_LIMIT,
        -COORD_LIMIT <= s <= COORD_LIMIT,
    ensures
        d == inv_axis(zoom as int, pan as int, s as int),
        -DOC_POINT_LIMIT <= d <= DOC_POINT_LIMIT,
{
    let scaled = (s - pan) * SCALE;
    proof {
        lemma_tdiv_bounds(scaled as int, zoom as int, 200_000_000_000_000_000, ZOOM_MIN as int);
    }
    div_trunc(scaled, zoom)
}

/// Maps a document point to its screen coordinates under the given view.
pub fn document_to_screen(vs: &ViewportState, p: Point) -> (q: Point)
    requires
        vs.wf(),
        -COORD_LIMIT <= p.x <= COORD_LIMIT,
        -COORD_LIMIT <= p.y <= COORD_LIMIT,
    ensures
        q.x == fwd_axis(vs.zoom as int, vs.pan_x as int, p.x as int),
        q.y == fwd_axis(vs.zoom as int, vs.pan_y as int, p.y as int),
        -SCREEN_POINT_LIMIT <= q.x <= SCREEN_POINT_LIMIT,
        -SCREEN_POINT_LIMIT <= q.y <= SCREEN_POINT_LIMIT,
{
    let x = fwd_axis_exec(vs.zoom, vs.pan_x, p.x);
    let y = fwd_axis_exec(vs.zoom, vs.pan_y, p.y);
    Point { x, y }
}

/// One axis of `document_to_screen`.
fn fwd_axis_exec(zoom: i64, pan: i64, v: i64) -> (s: i64)
    requires
        ZOOM_MIN <= zoom <= ZOOM_MAX,
        -PAN_LIMIT <= pan <= PAN_LIMIT,
        -COORD_LIMIT <= v <= COORD_LIMIT,
    ensures
        s == fwd_axis(zoom as int, pan as int, v as int),
        -SCREEN_POINT_LIMIT <= s <= SCREEN_POINT_LIMIT,
{
    assert(-1_000_000_000_000_000_000 <= v * zoom <= 1_000_000_000_000_000_000)
        by (nonlinear_arith)
        requires
            -100_000_000_000 <= v <= 100_000_000_000,
            0 < zoom <= 10_000_000,
    ;
    let prod = v * zoom;
    proof {
        lemma_tdiv_bounds(prod as int, SCALE as int, 1_000_000_000_000_000_000, SCALE as int);
    }
    let q = div_trunc(prod, SCALE);
    q + pan
}

/// Law: mapping a document coordinate to the screen and back moves it by
/// at most 10 subunits (one hundred-thousandth of a document unit), on
/// each axis, for every well-formed view.
pub proof fn lemma_document_round_trip(vs: ViewportState, x: int, y: int)
    requires
        vs.wf(),
    ensures
        iabs(inv_axis(vs.zoom as int, vs.pan_x as int, fwd_axis(vs.zoom as int, vs.pan_x as int, x)) - x) <= 10,
        iabs(inv_axis(vs.zoom as int, vs.pan_y as int, fwd_axis(vs.zoom as int, vs.pan_y as int, y)) - y) <= 10,
{
    lemma_axis_doc_round_trip(vs.zoom as int, vs.pan_x as int, x);
    lemma_axis_doc_round_trip(vs.zoom as int, vs.pan_y as int, y);
}

/// One axis of `lemma_document_round_trip`.
proof fn lemma_axis_doc_round_trip(zoom: int, pan: int, v: int)
    requires
        ZOOM_MIN <= zoom <= ZOOM_MAX,
    ensures
        iabs(inv_axis(zoom, pan, fwd_axis(zoom, pan, v)) - v) <= 10,
{
    lemma_scale_unscale(v, zoom, SCALE as int);
    assert(fwd_axis(zoom, pan, v) - pan == tdiv(v * zoom, SCALE as int));
}

/// Law: mapping a screen coordinate to the document and back moves it by
/// at most 10 subunits (one hundred-thousandth of a pixel), on each axis,
/// for every well-formed view.
pub proof fn lemma_screen_round_trip(vs: ViewportState, x: int, y: int)
    requires
        vs.wf(),
    ensures
        iabs(fwd_axis(vs.zoom as int, vs.pan_x as int, inv_axis(vs.zoom as int, vs.pan_x as int, x)) - x) <= 10,
        iabs(fwd_axis(vs.zoom as int, vs.pan_y as int, inv_axis(vs.zoom as int, vs.pan_y as int, y)) - y) <= 10,
{
    lemma_axis_screen_round_trip(vs.zoom as int, vs.pan_x as int, x);
    lemma_axis_screen_round_trip(vs.zoom as int, vs.pan_y as int, y);
}

/// One axis of `lemma_screen_round_trip`.
proof fn lemma_axis_screen_round_trip(zoom: int, pan: int, s: int)
    requires
        ZOOM_MIN <= zoom <= ZOOM_MAX,
    ensures
        iabs(fwd_axis(zoom, pan, inv_axis(zoom, pan, s)) - s) <= 10,
{
    lemma_scale_unscale(s - pan, SCALE as int, zoom);
}

/// Law: a zoom step keeps the document point under its anchor fixed to
/// within 10 subunits, provided the solved pan offset stays inside the
/// admissible range (so the final clamp does not bite).
pub proof fn lemma_zoom_anchor_fixed(vs: ViewportState, factor: i64, ax: i64, ay: i64)
    requires
        vs.wf(),
        factor > 0,
        -PAN_LIMIT <= ax as int - tdiv(
            inv_axis(vs.zoom as int, vs.pan_x as int, ax as int) * zoom_after(vs.zoom as int, factor as int),
            SCALE as int,
        ) <= PAN_LIMIT,
        -PAN_LIMIT <= ay as int - tdiv(
            inv_axis(vs.zoom as int, vs.pan_y as int, ay as int) * zoom_after(vs.zoom as int, factor as int),
            SCALE as int,
        ) <= PAN_LIMIT,
    ensures
        iabs(
            inv_axis(
                vs.after_zoom(factor, ax, ay).zoom as int,
                vs.after_zoom(factor, ax, ay).pan_x as int,
                ax as int,
            ) - inv_axis(vs.zoom as int, vs.pan_x as int, ax as int),
        ) <= 10,
        iabs(
            inv_axis(
                vs.after_zoom(factor, ax, ay).zoom as int,
                vs.after_zoom(factor, ax, ay).pan_y as int,
                ay as int,
            ) - inv_axis(vs.zoom as int, vs.pan_y as int, ay as int),
        ) <= 10,
{
    let nz = zoom_after(vs.zoom as int, factor as int);
    lemma_axis_anchor_fixed(vs.zoom as int, vs.pan_x as int, ax as int, nz);
    lemma_axis_anchor_fixed(vs.zoom as int, vs.pan_y as int, ay as int, nz);
    assert(vs.after_zoom(factor, ax, ay).pan_x as int == pan_after_zoom(
        vs.zoom as int,
        vs.pan_x as int,
        ax as int,
        nz,
    ));
    assert(vs.after_zoom(factor, ax, ay).pan_y as int == pan_after_zoom(
        vs.zoom as int,
        vs.pan_y as int,
        ay as int,
        nz,
    ));
}

/// One axis of `lemma_zoom_anchor_fixed`: with the clamp known not to
/// bite, the re-anchored pan reduces the claim to `lemma_scale_unscale`.
proof fn lemma_axis_anchor_fixed(zoom: int, pan: int, anchor: int, nz: int)
    requires
        ZOOM_MIN <= zoom <= ZOOM_MAX,
        ZOOM_MIN <= nz <= ZOOM_MAX,
        -PAN_LIMIT <= anchor - tdiv(inv_axis(zoom, pan, anchor) * nz, SCALE as int) <= PAN_LIMIT,
    ensures
        iabs(
            inv_axis(nz, pan_after_zoom(zoom, pan, anchor, nz), anchor) - inv_axis(
                zoom,
                pan,
                anchor,
            ),
        ) <= 10,
{
    let d = inv_axis(zoom, pan, anchor);
    let np = pan_after_zoom(zoom, pan, anchor, nz);
    assert(np == anchor - tdiv(d * nz, SCALE as int));
    lemma_scale_unscale(d, nz, SCALE as int);
    assert(anchor - np == tdiv(d * nz, SCALE as int));
}

} // verus!
