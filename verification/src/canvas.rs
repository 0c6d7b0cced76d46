//! The central canvas: an ordered sequence of placed views, rendered
//! every frame. Insertion order is rendering order.

use vstd::prelude::*;

use crate::geometry::Vec2;

verus! {

/// Contains data for a view, plus rendering metadata (i.e. position on
/// the canvas).
pub struct ViewOnCanvas {
    pub view: crate::view::View,
    /// The view's placement on the canvas, origin top left, in pixels.
    pub canvas_pos: Vec2,
}

impl ViewOnCanvas {
    /// The view is well formed and the placement is bounded, so the quad
    /// corners `canvas_pos + resolution` fit in `i64`.
    pub open spec fn wf(self) -> bool {
        self.view.wf() && self.canvas_pos.bounded()
    }

    /// Create a new ViewOnCanvas placing `view` at `(pos_x, pos_y)` on
    /// the canvas (origin is top left).
    pub fn new(view: crate::view::View, pos_x: i64, pos_y: i64) -> (v: ViewOnCanvas)
        ensures
            v == (ViewOnCanvas { view, canvas_pos: Vec2 { x: pos_x, y: pos_y } }),
    {
        ViewOnCanvas { view, canvas_pos: Vec2 { x: pos_x, y: pos_y } }
    }
}

/// The ordered list of views placed on the canvas. Duplicates are legal;
/// no duplicate detection is performed.
pub struct Canvas {
    pub view_list: Vec<ViewOnCanvas>,
}

impl Canvas {
    /// Every placed view is well formed and bounded.
    pub open spec fn wf(self) -> bool {
        forall|i: int| 0 <= i < self.view_list@.len() ==> (#[trigger] self.view_list@[i]).wf()
    }

    /// Create an empty canvas.
    pub fn new() -> (c: Canvas)
        ensures
            c.view_list@ == Seq::<ViewOnCanvas>::empty(),
            c.wf(),
    {
        Canvas { view_list: Vec::new() }
    }

    /// Add a view to the canvas at `(pos_x, pos_y)` (origin is top
    /// left). Appends to the ordered list; no other entry changes.
    pub fn add_view(&mut self, view: crate::view::View, pos_x: i64, pos_y: i64)
        requires
            view.wf(),
            -crate::geometry::MAX_COORD <= pos_x <= crate::geometry::MAX_COORD,
            -crate::geometry::MAX_COORD <= pos_y <= crate::geometry::MAX_COORD,
        ensures
            final(self).view_list@ == old(self).view_list@.push(
                ViewOnCanvas { view, canvas_pos: Vec2 { x: pos_x, y: pos_y } },
            ),
            old(self).wf() ==> final(self).wf(),
    {
        self.view_list.push(ViewOnCanvas::new(view, pos_x, pos_y));
    }
}

} // verus!
