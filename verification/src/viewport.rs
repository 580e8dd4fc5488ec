//! The view state: zoom factor, pan offset, viewport size and document
//! extent, together with its invariant-preserving mutators.
//!
//! `ViewportState` is the single source of truth for the current view.
//! The zoom factor always stays inside `[ZOOM_MIN, ZOOM_MAX]` and the pan
//! offset inside `[-PAN_LIMIT, PAN_LIMIT]`; a mutation that cannot keep
//! the invariant (a non-positive zoom factor, an oversized document) is a
//! silent no-op, never an error.

use vstd::prelude::*;

verus! {

use crate::fixedpoint::{
    SCALE, ZOOM_MIN, ZOOM_MAX, COORD_LIMIT, PAN_LIMIT, tdiv, clamp_spec,
    lemma_tdiv_bounds, div_trunc, div_trunc_wide, clamp_i64,
};
use crate::transform::inv_axis;

/// Viewport width a fresh state starts with, in pixels.
pub const DEFAULT_VIEWPORT_W: u32 = 1200;

/// Viewport height a fresh state starts with, in pixels.
pub const DEFAULT_VIEWPORT_H: u32 = 800;

/// Placeholder document extent used before any document is loaded,
/// 400 document units in subunits.
pub const DEFAULT_DOC_EXTENT: i64 = 400_000_000;

/// The view of a document inside a window: all lengths in fixed-point
/// subunits except the viewport size, which is in whole pixels.
#[derive(Clone, Copy, PartialEq, Eq, Structural, Debug)]
pub struct ViewportState {
    /// Zoom factor in fixed point; `SCALE` means 1:1.
    pub zoom: i64,
    /// Pan offset along x, in screen subunits.
    pub pan_x: i64,
    /// Pan offset along y, in screen subunits.
    pub pan_y: i64,
    /// Window client width in pixels.
    pub viewport_w: u32,
    /// Window client height in pixels.
    pub viewport_h: u32,
    /// Document width in subunits.
    pub doc_w: i64,
    /// Document height in subunits.
    pub doc_h: i64,
}

/// The zoom factor after multiplying by `factor` and clamping; a
/// non-positive factor leaves the zoom unchanged.
pub open spec fn zoom_after(zoom: int, factor: int) -> int {
    if factor <= 0 {
        zoom
    } else {
        clamp_spec(tdiv(zoom * factor, SCALE as int), ZOOM_MIN as int, ZOOM_MAX as int)
    }
}

/// The pan offset along one axis after a zoom step anchored at
/// `anchor`: the anchor's pre-zoom document coordinate is re-projected
/// under the new zoom and the pan solved so the anchor keeps its screen
/// position, then clamped to the admissible range.
pub open spec fn pan_after_zoom(zoom: int, pan: int, anchor: int, new_zoom: int) -> int {
    clamp_spec(
        anchor - tdiv(inv_axis(zoom, pan, anchor) * new_zoom, SCALE as int),
        -PAN_LIMIT as int,
        PAN_LIMIT as int,
    )
}

impl ViewportState {
    /// The state invariant: zoom and pan within bounds, document extent
    /// positive and within machine limits.
    pub open spec fn wf(self) -> bool {
        &&& ZOOM_MIN <= self.zoom <= ZOOM_MAX
        &&& -PAN_LIMIT <= self.pan_x <= PAN_LIMIT
        &&& -PAN_LIMIT <= self.pan_y <= PAN_LIMIT
        &&& 0 < self.doc_w <= COORD_LIMIT
        &&& 0 < self.doc_h <= COORD_LIMIT
    }

    /// The whole state after one zoom step: zoom scaled and clamped, pan
    /// re-anchored, everything else untouched.
    pub open spec fn after_zoom(self, factor: i64, anchor_x: i64, anchor_y: i64) -> ViewportState {
        if factor <= 0 {
            self
        } else {
            let nz = zoom_after(self.zoom as int, factor as int);
            ViewportState {
                zoom: nz as i64,
                pan_x: pan_after_zoom(self.zoom as int, self.pan_x as int, anchor_x as int, nz) as i64,
                pan_y: pan_after_zoom(self.zoom as int, self.pan_y as int, anchor_y as int, nz) as i64,
                viewport_w: self.viewport_w,
                viewport_h: self.viewport_h,
                doc_w: self.doc_w,
                doc_h: self.doc_h,
            }
        }
    }

    /// A fresh state: identity zoom, zero pan, default viewport size and
    /// the placeholder document extent.
    pub fn new() -> (vs: ViewportState)
        ensures
            vs.wf(),
            vs.zoom == SCALE,
            vs.pan_x == 0,
            vs.pan_y == 0,
            vs.viewport_w == DEFAULT_VIEWPORT_W,
            vs.viewport_h == DEFAULT_VIEWPORT_H,
            vs.doc_w == DEFAULT_DOC_EXTENT,
            vs.doc_h == DEFAULT_DOC_EXTENT,
    {
        ViewportState {
            zoom: SCALE,
            pan_x: 0,
            pan_y: 0,
            viewport_w: DEFAULT_VIEWPORT_W,
            viewport_h: DEFAULT_VIEWPORT_H,
            doc_w: DEFAULT_DOC_EXTENT,
            doc_h: DEFAULT_DOC_EXTENT,
        }
    }

    /// Replaces the viewport size and nothing else: the user's zoom and
    /// pan survive a window resize.
    pub fn set_viewport_size(&mut self, w: u32, h: u32)
        requires
            old(self).wf(),
        ensures
            final(self).wf(),
            *final(self) == (ViewportState { viewport_w: w, viewport_h: h, ..*old(self) }),
    {
        self.viewport_w = w;
        self.viewport_h = h;
    }

    /// Adds a drag delta to the pan offset, clamped to the admissible
    /// range; the document may be panned fully off-screen.
    pub fn apply_pan_delta(&mut self, dx: i64, dy: i64)
        requires
            old(self).wf(),
            -2 * COORD_LIMIT <= dx <= 2 * COORD_LIMIT,
            -2 * COORD_LIMIT <= dy <= 2 * COORD_LIMIT,
        ensures
            final(self).wf(),
            final(self).pan_x == clamp_spec(old(self).pan_x + dx, -PAN_LIMIT as int, PAN_LIMIT as int),
            final(self).pan_y == clamp_spec(old(self).pan_y + dy, -PAN_LIMIT as int, PAN_LIMIT as int),
            final(self).zoom == old(self).zoom,
            final(self).viewport_w == old(self).viewport_w,
            final(self).viewport_h == old(self).viewport_h,
            final(self).doc_w == old(self).doc_w,
            final(self).doc_h == old(self).doc_h,
    {
        self.pan_x = clamp_i64(self.pan_x + dx, -PAN_LIMIT, PAN_LIMIT);
        self.pan_y = clamp_i64(self.pan_y + dy, -PAN_LIMIT, PAN_LIMIT);
    }

    /// Multiplies the zoom by `factor`, clamps it to its bounds, and
    /// adjusts the pan so the document point under the anchor stays under
    /// the same screen point. A non-positive factor is a no-op.
    pub fn apply_zoom_delta(&mut self, factor: i64, anchor_x: i64, anchor_y: i64)
        requires
            old(self).wf(),
            -COORD_LIMIT <= anchor_x <= COORD_LIMIT,
            -COORD_LIMIT <= anchor_y <= COORD_LIMIT,
        ensures
            final(self).wf(),
            *final(self) == old(self).after_zoom(factor, anchor_x, anchor_y),
    {
        if factor <= 0 {
            return ;
        }
        assert(0 < (self.zoom as int) * (factor as int)
            <= 100_000_000_000_000_000_000_000_000) by (nonlinear_arith)
            requires
                0 < self.zoom as int <= 10_000_000,
                0 < factor as int <= 0x7fff_ffff_ffff_ffff,
        ;
        let prod: i128 = (self.zoom as i128) * (factor as i128);
        let nz128 = div_trunc_wide(prod, SCALE as i128);
        let nz: i64 = if nz128 < ZOOM_MIN as i128 {
            ZOOM_MIN
        } else if nz128 > ZOOM_MAX as i128 {
            ZOOM_MAX
        } else {
            nz128 as i64
        };
        assert(nz == zoom_after(self.zoom as int, factor as int));
        let npx = zoom_anchor_pan(self.zoom, self.pan_x, anchor_x, nz);
        let npy = zoom_anchor_pan(self.zoom, self.pan_y, anchor_y, nz);
        self.zoom = nz;
        self.pan_x = npx;
        self.pan_y = npy;
    }

    /// Resets the view to identity zoom and zero pan; sizes are kept.
    pub fn reset(&mut self)
        requires
            old(self).wf(),
        ensures
            final(self).wf(),
            *final(self) == (ViewportState { zoom: SCALE, pan_x: 0, pan_y: 0, ..*old(self) }),
    {
        self.zoom = SCALE;
        self.pan_x = 0;
        self.pan_y = 0;
    }

    /// Replaces the document extent and resets the view to its defaults.
    /// A non-positive or oversized extent is rejected: the state is left
    /// unchanged.
    pub fn load_document(&mut self, width: i64, height: i64)
        requires
            old(self).wf(),
        ensures
            final(self).wf(),
            (0 < width <= COORD_LIMIT && 0 < height <= COORD_LIMIT) ==> *final(self) == (ViewportState {
                zoom: SCALE,
                pan_x: 0,
                pan_y: 0,
                doc_w: width,
                doc_h: height,
                ..*old(self)
            }),
            !(0 < width <= COORD_LIMIT && 0 < height <= COORD_LIMIT) ==> *final(self) == *old(self),
    {
        if 0 < width && width <= COORD_LIMIT && 0 < height && height <= COORD_LIMIT {
            self.zoom = SCALE;
            self.pan_x = 0;
            self.pan_y = 0;
            self.doc_w = width;
            self.doc_h = height;
        }
    }
}

/// One pan axis of a zoom step: the anchor's document coordinate under
/// the old view, re-projected under the new zoom, solved for the pan that
/// pins it to the anchor, and clamped.
fn zoom_anchor_pan(zoom: i64, pan: i64, anchor: i64, new_zoom: i64) -> (p: i64)
    requires
        ZOOM_MIN <= zoom <= ZOOM_MAX,
        ZOOM_MIN <= new_zoom <= ZOOM_MAX,
        -PAN_LIMIT <= pan <= PAN_LIMIT,
        -COORD_LIMIT <= anchor <= COORD_LIMIT,
    ensures
        p == pan_after_zoom(zoom as int, pan as int, anchor as int, new_zoom as int),
{
    let scaled = (anchor - pan) * SCALE;
    proof {
        lemma_tdiv_bounds(scaled as int, zoom as int, 200_000_000_000_000_000, ZOOM_MIN as int);
    }
    let d = div_trunc(scaled, zoom);
    assert(-2_000_000_000_000 <= d <= 2_000_000_000_000);
    assert(-20_000_000_000_000_000_000 <= (d as int) * (new_zoom as int) <= 20_000_000_000_000_000_000)
        by (nonlinear_arith)
        requires
            -2_000_000_000_000 <= d as int <= 2_000_000_000_000,
            0 < new_zoom as int <= 10_000_000,
    ;
    let moved: i128 = (d as i128) * (new_zoom as i128);
    proof {
        lemma_tdiv_bounds(moved as int, SCALE as int, 20_000_000_000_000_000_000, SCALE as int);
    }
    let shifted128 = div_trunc_wide(moved, SCALE as i128);
    let shifted = shifted128 as i64;
    let raw = anchor - shifted;
    clamp_i64(raw, -PAN_LIMIT, PAN_LIMIT)
}

/// The state after a whole sequence of zoom steps, applied in order.
pub open spec fn after_zoom_seq(vs: ViewportState, ops: Seq<(i64, i64, i64)>) -> ViewportState
    decreases ops.len(),
{
    if ops.len() == 0 {
        vs
    } else {
        after_zoom_seq(vs.after_zoom(ops[0].0, ops[0].1, ops[0].2), ops.drop_first())
    }
}

/// Law: one zoom step preserves the state invariant, whatever the factor
/// and anchor.
pub proof fn lemma_after_zoom_wf(vs: ViewportState, factor: i64, anchor_x: i64, anchor_y: i64)
    requires
        vs.wf(),
    ensures
        vs.after_zoom(factor, anchor_x, anchor_y).wf(),
{
}

/// Law: however many zoom steps are applied, with whatever factors and
/// anchors, the zoom factor stays within `[ZOOM_MIN, ZOOM_MAX]` and the
/// whole invariant is preserved.
pub proof fn lemma_zoom_seq_in_bounds(vs: ViewportState, ops: Seq<(i64, i64, i64)>)
    requires
        vs.wf(),
    ensures
        after_zoom_seq(vs, ops).wf(),
        ZOOM_MIN <= after_zoom_seq(vs, ops).zoom <= ZOOM_MAX,
    decreases ops.len(),
{
    if ops.len() == 0 {
    } else {
        lemma_after_zoom_wf(vs, ops[0].0, ops[0].1, ops[0].2);
        lemma_zoom_seq_in_bounds(vs.after_zoom(ops[0].0, ops[0].1, ops[0].2), ops.drop_first());
    }
}

} // verus!
