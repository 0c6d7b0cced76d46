//! The input handler: translates raw pointer, scroll and button events
//! into camera-state mutations on the renderer core.
//!
//! Pointer positions arrive as whole pixels; scroll deltas as whole
//! lines. Camera pan and zoom are kept in tenths, so every transition is
//! exact integer arithmetic: a scroll line changes the zoom by one tenth,
//! and a pointer delta pans by `delta * zoom` tenths.

use vstd::prelude::*;

use crate::geometry::Vec2;
use crate::renderer::Renderer;

verus! {

/// A pointer position in window pixels.
#[derive(Clone, Copy, Debug, PartialEq, Eq, Structural)]
pub struct MousePos {
    pub x: i32,
    pub y: i32,
}

/// A mouse button. Buttons other than the primary and secondary one are
/// ignored by the handler.
#[derive(Clone, Copy, Debug, PartialEq, Eq, Structural)]
pub enum Button {
    Left,
    Right,
    Other,
}

/// A raw input event, as the display glue hands it to the handler.
#[derive(Clone, Copy, Debug, PartialEq, Eq, Structural)]
pub enum Event {
    /// Pointer moved to (x, y), in window pixels.
    MouseMoved(i32, i32),
    /// Vertical scroll by a number of lines (positive scrolls down).
    MouseWheel(i32),
    /// A button was pressed (`true`) or released (`false`).
    MouseInput(bool, Button),
    /// Any other event kind: ignored, no state change.
    Other,
}

/// Whether the handler reacts to this event at all. Only a recognized
/// event clears the first-frame flag.
pub open spec fn recognized(e: Event) -> bool {
    match e {
        Event::MouseMoved(_, _) => true,
        Event::MouseWheel(_) => true,
        Event::MouseInput(_, b) => b is Left || b is Right,
        Event::Other => false,
    }
}

/// `v` clamped to the `i64` range.
pub open spec fn sat_i64(v: int) -> int {
    if v > i64::MAX {
        i64::MAX as int
    } else if v < i64::MIN {
        i64::MIN as int
    } else {
        v
    }
}

/// The camera zoom after a scroll of `dy` lines at zoom `z` (both in
/// tenths): the zoom drops by `dy` tenths, saturating at the `i64` top,
/// and never goes below the floor of 1 tenth.
pub open spec fn zoom_after(z: int, dy: int) -> int {
    if sat_i64(z - dy) < 1 {
        1
    } else {
        sat_i64(z - dy)
    }
}

/// One pan coordinate after a pointer delta of `d` pixels at zoom `z`
/// tenths: the camera moves against the pointer by `d * z` tenths,
/// saturating at the `i64` range.
pub open spec fn pan_after(cam: int, d: int, z: int) -> int {
    sat_i64(cam - d * z)
}

/// The zoom floor holds after every scroll step, whatever the delta:
/// together with the renderer's initial zoom this keeps the camera zoom
/// at or above one tenth after any sequence of events.
pub proof fn lemma_zoom_floor(z: int, dy: int)
    ensures
        zoom_after(z, dy) >= 1,
{
}

/// Scrolling down (a positive delta) never raises the zoom; it lowers
/// the zoom strictly while the floor has not been reached, and by
/// exactly `dy` tenths until clamped.
pub proof fn lemma_scroll_monotone(z: int, dy: int)
    requires
        1 <= z <= i64::MAX,
        dy >= 0,
    ensures
        zoom_after(z, dy) <= z,
        dy > 0 && z > 1 ==> zoom_after(z, dy) < z,
        z - dy >= 1 ==> zoom_after(z, dy) == z - dy,
{
}

/// Consecutive scroll deltas accumulate: two scrolls down act as one
/// scroll by their sum, so the zoom decreases with the cumulative
/// positive scroll-delta sum until the floor clamps it.
pub proof fn lemma_scroll_accumulates(z: int, a: int, b: int)
    requires
        z <= i64::MAX,
        a >= 0,
        b >= 0,
    ensures
        zoom_after(zoom_after(z, a), b) == zoom_after(z, a + b),
{
}

/// The camera zoom after a whole sequence of scroll deltas, applied in
/// order, starting from `z` tenths.
pub open spec fn zoom_after_seq(z: int, dys: Seq<int>) -> int
    decreases dys.len(),
{
    if dys.len() == 0 {
        z
    } else {
        zoom_after_seq(zoom_after(z, dys[0]), dys.subrange(1, dys.len() as int))
    }
}

/// The sum of a sequence of scroll deltas.
pub open spec fn sum_seq(dys: Seq<int>) -> int
    decreases dys.len(),
{
    if dys.len() == 0 {
        0
    } else {
        dys[0] + sum_seq(dys.subrange(1, dys.len() as int))
    }
}

/// The zoom floor survives any sequence of scroll events, whatever the
/// deltas.
pub proof fn lemma_zoom_floor_seq(z: int, dys: Seq<int>)
    requires
        z >= 1,
    ensures
        zoom_after_seq(z, dys) >= 1,
    decreases dys.len(),
{
    if dys.len() > 0 {
        lemma_zoom_floor(z, dys[0]);
        lemma_zoom_floor_seq(zoom_after(z, dys[0]), dys.subrange(1, dys.len() as int));
    }
}

/// Over any sequence of non-negative scroll deltas the zoom decreases
/// with their cumulative sum until the floor clamps it: the final zoom
/// is exactly the starting zoom less the total, or the floor.
pub proof fn lemma_zoom_decreases_with_cumulative_scroll(z: int, dys: Seq<int>)
    requires
        1 <= z <= i64::MAX,
        forall|i: int| 0 <= i < dys.len() ==> dys[i] >= 0,
    ensures
        zoom_after_seq(z, dys) == if z - sum_seq(dys) >= 1 {
            z - sum_seq(dys)
        } else {
            1
        },
    decreases dys.len(),
{
    if dys.len() == 0 {
    } else {
        let rest = dys.subrange(1, dys.len() as int);
        let z1 = zoom_after(z, dys[0]);
        lemma_zoom_floor(z, dys[0]);
        assert(forall|i: int| 0 <= i < rest.len() ==> rest[i] >= 0);
        lemma_zoom_decreases_with_cumulative_scroll(z1, rest);
        lemma_sum_seq_non_negative(rest);
    }
}

/// A sequence of non-negative deltas has a non-negative sum.
pub proof fn lemma_sum_seq_non_negative(dys: Seq<int>)
    requires
        forall|i: int| 0 <= i < dys.len() ==> dys[i] >= 0,
    ensures
        sum_seq(dys) >= 0,
    decreases dys.len(),
{
    if dys.len() > 0 {
        lemma_sum_seq_non_negative(dys.subrange(1, dys.len() as int));
    }
}

/// Holds input state, like last mouse position.
pub struct InputHandler {
    pub last_mouse_pos: MousePos,
    pub mouse_1_down: bool,
    pub mouse_2_down: bool,
    /// True until the first recognized event has been handled. While it
    /// is set, a pointer move updates `last_mouse_pos` but its delta has
    /// no effect, so a stale initial position cannot produce a huge pan.
    pub first_frame: bool,
}

impl InputHandler {
    pub fn new() -> (ih: InputHandler)
        ensures
            ih == (InputHandler {
                last_mouse_pos: MousePos { x: 0, y: 0 },
                mouse_1_down: false,
                mouse_2_down: false,
                first_frame: true,
            }),
    {
        InputHandler {
            last_mouse_pos: MousePos { x: 0, y: 0 },
            mouse_1_down: false,
            mouse_2_down: false,
            first_frame: true,
        }
    }

    /// Handle one input event, mutating the handler's own state and the
    /// renderer's camera. Events are processed strictly in the order
    /// received; no event can fail.
    ///
    /// The contract walks the state machine case by case; in particular,
    /// while `first_frame` is still set the camera never moves, and a
    /// pointer move with the secondary button held pans by exactly
    /// `-delta * camera_zoom`.
    pub fn handle_event(&mut self, renderer: &mut Renderer, e: &Event)
        requires
            old(renderer).wf(),
        ensures
            final(renderer).wf(),
            final(self).first_frame == (old(self).first_frame && !recognized(*e)),
            old(self).first_frame ==> final(renderer).camera_pos == old(renderer).camera_pos,
            match *e {
                Event::MouseMoved(x, y) => {
                    &&& final(self).last_mouse_pos == (MousePos { x, y })
                    &&& final(self).mouse_1_down == old(self).mouse_1_down
                    &&& final(self).mouse_2_down == old(self).mouse_2_down
                    &&& final(renderer).camera_zoom == old(renderer).camera_zoom
                    &&& if !old(self).first_frame && old(self).mouse_2_down {
                        &&& final(renderer).camera_pos.x == pan_after(
                            old(renderer).camera_pos.x as int,
                            x - old(self).last_mouse_pos.x,
                            old(renderer).camera_zoom as int,
                        )
                        &&& final(renderer).camera_pos.y == pan_after(
                            old(renderer).camera_pos.y as int,
                            y - old(self).last_mouse_pos.y,
                            old(renderer).camera_zoom as int,
                        )
                    } else {
                        final(renderer).camera_pos == old(renderer).camera_pos
                    }
                },
                Event::MouseWheel(dy) => {
                    &&& final(self).last_mouse_pos == old(self).last_mouse_pos
                    &&& final(self).mouse_1_down == old(self).mouse_1_down
                    &&& final(self).mouse_2_down == old(self).mouse_2_down
                    &&& final(renderer).camera_pos == old(renderer).camera_pos
                    &&& final(renderer).camera_zoom == zoom_after(
                        old(renderer).camera_zoom as int,
                        dy as int,
                    )
                },
                Event::MouseInput(pressed, button) => {
                    &&& final(self).last_mouse_pos == old(self).last_mouse_pos
                    &&& final(renderer).camera_pos == old(renderer).camera_pos
                    &&& final(renderer).camera_zoom == old(renderer).camera_zoom
                    &&& final(self).mouse_1_down == if button is Left {
                        pressed
                    } else {
                        old(self).mouse_1_down
                    }
                    &&& final(self).mouse_2_down == if button is Right {
                        pressed
                    } else {
                        old(self).mouse_2_down
                    }
                },
                Event::Other => {
                    &&& *final(self) == *old(self)
                    &&& *final(renderer) == *old(renderer)
                },
            },
    {
        match *e {
            Event::MouseMoved(x, y) => {
                let dx = x as i64 - self.last_mouse_pos.x as i64;
                let dy = y as i64 - self.last_mouse_pos.y as i64;
                if !self.first_frame {
                    if self.mouse_2_down {
                        renderer.camera_pos.x = pan_step(renderer.camera_pos.x, dx, renderer.camera_zoom);
                        renderer.camera_pos.y = pan_step(renderer.camera_pos.y, dy, renderer.camera_zoom);
                    }
                }
                self.last_mouse_pos = MousePos { x, y };
                self.first_frame = false;
            },
            Event::MouseWheel(dy) => {
                renderer.camera_zoom = zoom_step(renderer.camera_zoom, dy);
                self.first_frame = false;
            },
            Event::MouseInput(pressed, button) => {
                match button {
                    Button::Left => {
                        self.mouse_1_down = pressed;
                        self.first_frame = false;
                    },
                    Button::Right => {
                        self.mouse_2_down = pressed;
                        self.first_frame = false;
                    },
                    Button::Other => {},
                }
            },
            Event::Other => {},
        }
    }
}

/// One pan coordinate step: `cam - d * z`, computed exactly in `i128`
/// and clamped to the `i64` range.
fn pan_step(cam: i64, d: i64, z: i64) -> (r: i64)
    requires
        -4294967296 <= d <= 4294967296,
        z >= 1,
    ensures
        r as int == pan_after(cam as int, d as int, z as int),
{
    proof {
        assert((d as int) * (z as int) <= 4294967296 * (i64::MAX as int) && (d as int) * (z
            as int) >= -4294967296 * (i64::MAX as int)) by (nonlinear_arith)
            requires
                -4294967296 <= d as int <= 4294967296,
                1 <= z as int <= i64::MAX as int,
        ;
    }
    let p: i128 = (d as i128) * (z as i128);
    let t: i128 = (cam as i128) - p;
    if t > i64::MAX as i128 {
        i64::MAX
    } else if t < i64::MIN as i128 {
        i64::MIN
    } else {
        t as i64
    }
}

/// One zoom step: `z - dy` tenths, computed exactly in `i128`, clamped
/// to the `i64` range and to the floor of 1.
fn zoom_step(z: i64, dy: i32) -> (r: i64)
    ensures
        r as int == zoom_after(z as int, dy as int),
{
    let t: i128 = (z as i128) - (dy as i128);
    if t < 1 {
        1
    } else if t > i64::MAX as i128 {
        i64::MAX
    } else {
        t as i64
    }
}

} // verus!
