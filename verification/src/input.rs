//! The input controller: a small state machine that turns abstract input
//! events into view mutations, redraw requests and a quit signal.
//!
//! The controller is either idle or dragging. A left press starts a drag
//! with no baseline; the first move only records one; each further move
//! pans by the pointer delta. A wheel event zooms toward the current
//! pointer position, a resize replaces the viewport size, and the quit
//! combination (Escape, or Control with `q`) or a close request signals
//! termination. An event vetoed by an overlay UI layer mutates nothing.

use vstd::prelude::*;

verus! {

use crate::fixedpoint::{
    SCALE, COORD_LIMIT, PAN_LIMIT, tdiv, clamp_spec, lemma_tdiv_bounds, div_trunc,
};
use crate::viewport::ViewportState;
use crate::scheduler::RenderScheduler;

/// Zoom change per scrolled line, 0.1 in fixed point.
pub const ZOOM_SENSITIVITY: i64 = 100_000;

/// Pixel-unit wheel deltas are normalized at ten pixels per line, so both
/// wheel sources zoom at the same visual rate.
pub const WHEEL_PIXELS_PER_LINE: i64 = 10;

/// A pointer button. Only the left button drives the drag state machine.
#[derive(Clone, Copy, PartialEq, Eq, Structural, Debug)]
pub enum MouseButton {
    Left,
    Right,
    Middle,
}

/// A wheel delta, in subunits of lines or of pixels depending on the
/// input source.
#[derive(Clone, Copy, PartialEq, Eq, Structural, Debug)]
pub enum WheelDelta {
    Lines(i64),
    Pixels(i64),
}

/// The key carried by a key event, reduced to what the core reads.
#[derive(Clone, Copy, PartialEq, Eq, Structural, Debug)]
pub enum KeyCode {
    Escape,
    Character(char),
    Other,
}

/// An abstract input event, as the host adapter delivers it.
#[derive(Clone, Copy, PartialEq, Eq, Structural, Debug)]
pub enum InputEvent {
    PointerMoved { x: i64, y: i64 },
    PointerButton { button: MouseButton, pressed: bool },
    Wheel { delta: WheelDelta },
    Key { code: KeyCode, ctrl: bool, pressed: bool, repeat: bool },
    Resized { width: u32, height: u32 },
    CloseRequested,
}

/// Coordinates an event may carry, bounded by what the machine can hold.
pub open spec fn event_wf(ev: InputEvent) -> bool {
    match ev {
        InputEvent::PointerMoved { x, y } => {
            &&& -COORD_LIMIT <= x <= COORD_LIMIT
            &&& -COORD_LIMIT <= y <= COORD_LIMIT
        },
        InputEvent::Wheel { delta } => match delta {
            WheelDelta::Lines(n) => -COORD_LIMIT <= n <= COORD_LIMIT,
            WheelDelta::Pixels(p) => -COORD_LIMIT <= p <= COORD_LIMIT,
        },
        _ => true,
    }
}

/// The controller's drag state and last known pointer position.
#[derive(Clone, Copy, Debug)]
pub struct InputController {
    /// Whether a left-button drag is in progress.
    pub dragging: bool,
    /// The pointer position the next drag delta is measured from; `None`
    /// until the first move of a drag sets the baseline.
    pub last_pos: Option<(i64, i64)>,
    /// Last known pointer x, the anchor for wheel zooming.
    pub cursor_x: i64,
    /// Last known pointer y, the anchor for wheel zooming.
    pub cursor_y: i64,
}

/// Whether the key with the given modifier is the quit combination.
pub open spec fn is_quit_key(code: KeyCode, ctrl: bool) -> bool {
    code == KeyCode::Escape || (ctrl && code == KeyCode::Character('q'))
}

/// Whether the event signals termination: a close request, or a fresh
/// (non-repeat) press of the quit combination; never when vetoed.
pub open spec fn quit_spec(ev: InputEvent, vetoed: bool) -> bool {
    !vetoed && match ev {
        InputEvent::CloseRequested => true,
        InputEvent::Key { code, ctrl, pressed, repeat } => pressed && !repeat && is_quit_key(
            code,
            ctrl,
        ),
        _ => false,
    }
}

/// The wheel delta in subunits of lines, both sources normalized.
pub open spec fn scroll_units(delta: WheelDelta) -> int {
    match delta {
        WheelDelta::Lines(n) => n as int,
        WheelDelta::Pixels(p) => tdiv(p as int, WHEEL_PIXELS_PER_LINE as int),
    }
}

/// The zoom factor a wheel delta asks for: one plus a tenth per line, in
/// fixed point.
pub open spec fn wheel_factor(delta: WheelDelta) -> int {
    SCALE + tdiv(scroll_units(delta) * ZOOM_SENSITIVITY, SCALE as int)
}

/// The controller state after one event.
pub open spec fn controller_after(c: InputController, ev: InputEvent, vetoed: bool) -> InputController {
    if vetoed {
        c
    } else {
        match ev {
            InputEvent::PointerMoved { x, y } => InputController {
                cursor_x: x,
                cursor_y: y,
                last_pos: if c.dragging {
                    Some((x, y))
                } else {
                    c.last_pos
                },
                dragging: c.dragging,
            },
            InputEvent::PointerButton { button: MouseButton::Left, pressed } => {
                if pressed {
                    if !c.dragging {
                        InputController { dragging: true, last_pos: None, ..c }
                    } else {
                        c
                    }
                } else {
                    InputController { dragging: false, last_pos: None, ..c }
                }
            },
            _ => c,
        }
    }
}

/// The view state after one event.
pub open spec fn viewport_after(
    c: InputController,
    vs: ViewportState,
    ev: InputEvent,
    vetoed: bool,
) -> ViewportState {
    if vetoed {
        vs
    } else {
        match ev {
            InputEvent::PointerMoved { x, y } => {
                if c.dragging {
                    match c.last_pos {
                        Some((lx, ly)) => ViewportState {
                            pan_x: clamp_spec(
                                vs.pan_x + (x - lx),
                                -PAN_LIMIT as int,
                                PAN_LIMIT as int,
                            ) as i64,
                            pan_y: clamp_spec(
                                vs.pan_y + (y - ly),
                                -PAN_LIMIT as int,
                                PAN_LIMIT as int,
                            ) as i64,
                            ..vs
                        },
                        None => vs,
                    }
                } else {
                    vs
                }
            },
            InputEvent::Wheel { delta } => vs.after_zoom(
                wheel_factor(delta) as i64,
                c.cursor_x,
                c.cursor_y,
            ),
            InputEvent::Resized { width, height } => ViewportState {
                viewport_w: width,
                viewport_h: height,
                ..vs
            },
            _ => vs,
        }
    }
}

/// Whether one event requests a redraw.
pub open spec fn dirty_after(c: InputController, ev: InputEvent, vetoed: bool) -> bool {
    !vetoed && match ev {
        InputEvent::PointerMoved { .. } => c.dragging && c.last_pos is Some,
        InputEvent::Wheel { .. } => true,
        InputEvent::Resized { .. } => true,
        _ => false,
    }
}

impl InputController {
    /// All stored positions within machine bounds.
    pub open spec fn wf(self) -> bool {
        &&& -COORD_LIMIT <= self.cursor_x <= COORD_LIMIT
        &&& -COORD_LIMIT <= self.cursor_y <= COORD_LIMIT
        &&& match self.last_pos {
            Some((lx, ly)) => -COORD_LIMIT <= lx <= COORD_LIMIT && -COORD_LIMIT <= ly
                <= COORD_LIMIT,
            None => true,
        }
    }

    /// A fresh controller: idle, no baseline, pointer assumed at the
    /// origin until the first move reports it.
    pub fn new() -> (c: InputController)
        ensures
            c.wf(),
            !c.dragging,
            c.last_pos is None,
            c.cursor_x == 0,
            c.cursor_y == 0,
    {
        InputController { dragging: false, last_pos: None, cursor_x: 0, cursor_y: 0 }
    }

    /// Consumes one event: updates the drag state, mutates the view,
    /// requests a redraw where one is owed, and reports whether the event
    /// asks the application to quit. A vetoed event changes nothing and
    /// never quits.
    pub fn handle_event(
        &mut self,
        viewport: &mut ViewportState,
        scheduler: &mut RenderScheduler,
        event: InputEvent,
        vetoed: bool,
    ) -> (quit: bool)
        requires
            old(self).wf(),
            old(viewport).wf(),
            event_wf(event),
        ensures
            final(self).wf(),
            final(viewport).wf(),
            *final(self) == controller_after(*old(self), event, vetoed),
            *final(viewport) == viewport_after(*old(self), *old(viewport), event, vetoed),
            final(scheduler).dirty == (old(scheduler).dirty || dirty_after(
                *old(self),
                event,
                vetoed,
            )),
            quit == quit_spec(event, vetoed),
    {
        if vetoed {
            return false;
        }
        match event {
            InputEvent::PointerMoved { x, y } => {
                if self.dragging {
                    match self.last_pos {
                        Some((lx, ly)) => {
                            viewport.apply_pan_delta(x - lx, y - ly);
                            scheduler.mark_dirty();
                        },
                        None => {},
                    }
                    self.last_pos = Some((x, y));
                }
                self.cursor_x = x;
                self.cursor_y = y;
                false
            },
            InputEvent::PointerButton { button, pressed } => {
                match button {
                    MouseButton::Left => {
                        if pressed {
                            if !self.dragging {
                                self.dragging = true;
                                self.last_pos = None;
                            }
                        } else {
                            self.dragging = false;
                            self.last_pos = None;
                        }
                    },
                    _ => {},
                }
                false
            },
            InputEvent::Wheel { delta } => {
                let factor = wheel_zoom_factor(delta);
                viewport.apply_zoom_delta(factor, self.cursor_x, self.cursor_y);
                scheduler.mark_dirty();
                false
            },
            InputEvent::Key { code, ctrl, pressed, repeat } => {
                pressed && !repeat && match code {
                    KeyCode::Escape => true,
                    KeyCode::Character(ch) => ctrl && ch == 'q',
                    KeyCode::Other => false,
                }
            },
            InputEvent::Resized { width, height } => {
                viewport.set_viewport_size(width, height);
                scheduler.mark_dirty();
                false
            },
            InputEvent::CloseRequested => true,
        }
    }

    /// Cancels a drag in progress: called by the host when an overlay UI
    /// layer captures the pointer mid-drag, so no stale baseline survives
    /// the focus loss.
    pub fn cancel_drag(&mut self)
        requires
            old(self).wf(),
        ensures
            final(self).wf(),
            *final(self) == (InputController { dragging: false, last_pos: None, ..*old(self) }),
    {
        self.dragging = false;
        self.last_pos = None;
    }
}

/// The executable zoom factor for a wheel delta.
fn wheel_zoom_factor(delta: WheelDelta) -> (f: i64)
    requires
        match delta {
            WheelDelta::Lines(n) => -COORD_LIMIT <= n <= COORD_LIMIT,
            WheelDelta::Pixels(p) => -COORD_LIMIT <= p <= COORD_LIMIT,
        },
    ensures
        f == wheel_factor(delta),
{
    let units = match delta {
        WheelDelta::Lines(n) => n,
        WheelDelta::Pixels(p) => {
            proof {
                lemma_tdiv_bounds(
                    p as int,
                    WHEEL_PIXELS_PER_LINE as int,
                    COORD_LIMIT as int,
                    1,
                );
            }
            div_trunc(p, WHEEL_PIXELS_PER_LINE)
        },
    };
    let scaled = units * ZOOM_SENSITIVITY;
    proof {
        lemma_tdiv_bounds(
            scaled as int,
            SCALE as int,
            10_000_000_000_000_000,
            SCALE as int,
        );
    }
    let adj = div_trunc(scaled, SCALE);
    SCALE + adj
}

} // verus!
