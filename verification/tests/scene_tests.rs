use wireframe::canvas::Canvas;
use wireframe::component::Component;
use wireframe::geometry::Vec2;
use wireframe::init_canvas;
use wireframe::view::View;

#[test]
fn empty_canvas_has_no_views() {
    let c = Canvas::new();
    assert_eq!(c.view_list.len(), 0);
}

#[test]
fn add_view_appends_in_order() {
    let mut c = Canvas::new();
    c.add_view(View::new(String::from("a"), 100, 50), 10, 20);
    c.add_view(View::new(String::from("b"), 30, 40), -5, 7);
    assert_eq!(c.view_list.len(), 2);
    assert_eq!(c.view_list[0].view.name, "a");
    assert_eq!(c.view_list[0].view.resolution, Vec2 { x: 100, y: 50 });
    assert_eq!(c.view_list[0].canvas_pos, Vec2 { x: 10, y: 20 });
    assert_eq!(c.view_list[1].view.name, "b");
    assert_eq!(c.view_list[1].canvas_pos, Vec2 { x: -5, y: 7 });
}

#[test]
fn duplicate_placements_are_legal() {
    let mut c = Canvas::new();
    c.add_view(View::new(String::from("same"), 10, 10), 0, 0);
    c.add_view(View::new(String::from("same"), 10, 10), 0, 0);
    assert_eq!(c.view_list.len(), 2);
    assert_eq!(c.view_list[0].view.name, c.view_list[1].view.name);
    assert_eq!(c.view_list[0].canvas_pos, c.view_list[1].canvas_pos);
}

#[test]
fn view_owns_components_by_index() {
    let mut v = View::new(String::from("v"), 640, 480);
    let i0 = v.add_component(Component::new(1, 2, 3, 4, 0));
    let i1 = v.add_component(Component::new(5, 6, 7, 8, 0));
    assert_eq!(i0, 0);
    assert_eq!(i1, 1);
    assert_eq!(v.components[0].pos, Vec2 { x: 1, y: 2 });
    assert_eq!(v.components[0].size, Vec2 { x: 3, y: 4 });
    assert_eq!(v.components[1].pos, Vec2 { x: 5, y: 6 });
    assert_eq!(v.components[1].size, Vec2 { x: 7, y: 8 });
}

#[test]
fn component_records_its_fields() {
    let c = Component::new(-3, 9, 20, 30, 7);
    assert_eq!(c.pos, Vec2 { x: -3, y: 9 });
    assert_eq!(c.size, Vec2 { x: 20, y: 30 });
    assert_eq!(c.view, 7);
}

#[test]
fn init_canvas_builds_the_demo_scene() {
    let c = init_canvas();
    assert_eq!(c.view_list.len(), 2);
    assert_eq!(c.view_list[0].view.name, "Test view 1");
    assert_eq!(c.view_list[0].view.resolution, Vec2 { x: 800, y: 600 });
    assert_eq!(c.view_list[0].canvas_pos, Vec2 { x: 0, y: 0 });
    assert_eq!(c.view_list[1].view.name, "Test view 2");
    assert_eq!(c.view_list[1].view.resolution, Vec2 { x: 800, y: 600 });
    assert_eq!(c.view_list[1].canvas_pos, Vec2 { x: 1000, y: 0 });
}
