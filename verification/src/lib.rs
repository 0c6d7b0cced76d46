//! A minimal 2D scene-graph core for a wireframe prototyping tool.
//!
//! A [`canvas::Canvas`] hosts placed views; the renderer core turns the
//! canvas into a flat vertex stream and computes the camera projection.
//! All geometry is held in exact integer form: canvas coordinates are
//! whole pixels, camera state is kept in tenths of a unit, and the
//! projection matrix entries are exact rational numbers.

use vstd::prelude::*;

pub mod canvas;
pub mod component;
pub mod geometry;
pub mod input;
pub mod renderer;
pub mod view;

verus! {

/// Builds the hard-coded demo scene: two 800x600 views placed side by
/// side on the canvas, the first at the origin and the second at
/// x = 1000.
pub fn init_canvas() -> (c: canvas::Canvas)
    ensures
        c.view_list@.len() == 2,
        c.view_list@[0].view.name@ == "Test view 1"@,
        c.view_list@[0].view.resolution == (geometry::Vec2 { x: 800, y: 600 }),
        c.view_list@[0].view.components@.len() == 0,
        c.view_list@[0].canvas_pos == (geometry::Vec2 { x: 0, y: 0 }),
        c.view_list@[1].view.name@ == "Test view 2"@,
        c.view_list@[1].view.resolution == (geometry::Vec2 { x: 800, y: 600 }),
        c.view_list@[1].view.components@.len() == 0,
        c.view_list@[1].canvas_pos == (geometry::Vec2 { x: 1000, y: 0 }),
        c.wf(),
{
    let mut canvas = canvas::Canvas::new();
    canvas.add_view(view::View::new("Test view 1".to_string(), 800, 600), 0, 0);
    canvas.add_view(view::View::new("Test view 2".to_string(), 800, 600), 1000, 0);
    canvas
}

} // verus!

