//! Wireframe components: positioned, sized elements inside a view.
//! Data-only in this version; a future renderer extension consumes them.

use vstd::prelude::*;

use crate::geometry::Vec2;

verus! {

/// A wireframe component. It lives inside a view; `view` is a
/// non-owning handle (an index into whichever registry holds the views),
/// used for lookup only.
#[derive(Clone, Copy, Debug, PartialEq, Eq, Structural)]
pub struct Component {
    /// Size of the component in pixels.
    pub size: Vec2,
    /// Position of the component in pixels, relative to the top left of
    /// the view this component belongs to.
    pub pos: Vec2,
    /// Handle of the view this component belongs to.
    pub view: usize,
}

impl Component {
    /// Creates a new component at `(x_pos, y_pos)` (origin top left of
    /// its view) with extent `width` x `height`, belonging to the view
    /// identified by the handle `view`.
    pub fn new(x_pos: i64, y_pos: i64, width: i64, height: i64, view: usize) -> (c: Component)
        ensures
            c == (Component {
                pos: Vec2 { x: x_pos, y: y_pos },
                size: Vec2 { x: width, y: height },
                view,
            }),
    {
        Component { pos: Vec2 { x: x_pos, y: y_pos }, size: Vec2 { x: width, y: height }, view }
    }
}

} // verus!
