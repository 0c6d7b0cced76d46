//! Views: named rectangular screens with an intrinsic resolution,
//! owning an ordered list of components.

use vstd::prelude::*;
// The struct below shares its name with vstd's view trait; this alias
// keeps the trait's `@` notation usable in this module.
use vstd::view::View as VstdView;

use crate::component::Component;
use crate::geometry::Vec2;

verus! {

/// A view: a screen that can contain components.
pub struct View {
    /// Name of the view. Assigned by the user on creation.
    pub name: String,

    /// Final resolution in pixels of this screen. Whole pixel values;
    /// not necessarily the size it will be rendered on the canvas.
    pub resolution: Vec2,

    /// List of components that this view contains, in insertion order.
    pub components: Vec<Component>,
}

impl View {
    /// Resolution components are non-negative (and bounded so that
    /// placement sums cannot overflow).
    pub open spec fn wf(self) -> bool {
        self.resolution.non_negative()
    }

    /// Create a new view named `name` with resolution `width` x `height`
    /// in pixels, holding no components.
    pub fn new(name: String, width: i64, height: i64) -> (v: View)
        requires
            0 <= width <= crate::geometry::MAX_COORD,
            0 <= height <= crate::geometry::MAX_COORD,
        ensures
            v.name@ == name@,
            v.resolution == (Vec2 { x: width, y: height }),
            v.components@ == Seq::<Component>::empty(),
            v.wf(),
    {
        View { name, resolution: Vec2 { x: width, y: height }, components: Vec::new() }
    }

    /// Append a component to this view; returns its stable index.
    pub fn add_component(&mut self, component: Component) -> (idx: usize)
        ensures
            final(self).components@ == old(self).components@.push(component),
            idx == old(self).components@.len(),
            final(self).name@ == old(self).name@,
            final(self).resolution == old(self).resolution,
            final(self).wf() == old(self).wf(),
    {
        let idx = self.components.len();
        self.components.push(component);
        idx
    }
}

} // verus!
