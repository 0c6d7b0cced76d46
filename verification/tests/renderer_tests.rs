use wireframe::canvas::Canvas;
use wireframe::geometry::Vec2;
use wireframe::renderer::ProjMatrix;
use wireframe::renderer::Rat;
use wireframe::renderer::RenderError;
use wireframe::renderer::Renderer;
use wireframe::renderer::Vertex;
use wireframe::view::View;

fn one_view_canvas(name: &str, w: i64, h: i64, x: i64, y: i64) -> Canvas {
    let mut c = Canvas::new();
    c.add_view(View::new(String::from(name), w, h), x, y);
    c
}

fn as_f64(r: Rat) -> f64 {
    r.num as f64 / r.den as f64
}

#[test]
fn empty_canvas_yields_empty_vertex_list() {
    let r = Renderer::new();
    let c = Canvas::new();
    let v = r.gen_vertex_data_from_canvas(&c);
    assert!(v.is_empty());
}

#[test]
fn one_view_yields_exactly_its_two_triangles() {
    let r = Renderer::new();
    let c = one_view_canvas("v", 800, 600, 100, 200);
    let v = r.gen_vertex_data_from_canvas(&c);
    assert_eq!(v.len(), 6);
    let tl = Vertex { x: 100, y: 200, z: 0, r: 9, g: 9, b: 9, a: 10 };
    let tr = Vertex { x: 900, y: 200, z: 0, r: 9, g: 9, b: 9, a: 10 };
    let br = Vertex { x: 900, y: 800, z: 0, r: 9, g: 9, b: 9, a: 10 };
    let bl = Vertex { x: 100, y: 800, z: 0, r: 9, g: 9, b: 9, a: 10 };
    assert_eq!(v[0], tl);
    assert_eq!(v[1], tr);
    assert_eq!(v[2], br);
    assert_eq!(v[3], tl);
    assert_eq!(v[4], bl);
    assert_eq!(v[5], br);
}

#[test]
fn vertex_count_is_six_per_view() {
    let r = Renderer::new();
    let mut c = Canvas::new();
    for i in 0..7 {
        c.add_view(View::new(format!("v{}", i), 10, 10), i * 20, 0);
    }
    let v = r.gen_vertex_data_from_canvas(&c);
    assert_eq!(v.len(), 42);
}

#[test]
fn each_quad_bounding_box_is_its_view_rectangle() {
    let r = Renderer::new();
    let mut c = Canvas::new();
    c.add_view(View::new(String::from("a"), 300, 70), -50, 40);
    c.add_view(View::new(String::from("b"), 12, 34), 1000, -8);
    let v = r.gen_vertex_data_from_canvas(&c);
    for (i, e) in c.view_list.iter().enumerate() {
        let x0 = e.canvas_pos.x;
        let y0 = e.canvas_pos.y;
        let x1 = x0 + e.view.resolution.x;
        let y1 = y0 + e.view.resolution.y;
        let quad = &v[6 * i..6 * i + 6];
        let min_x = quad.iter().map(|q| q.x).min().unwrap();
        let max_x = quad.iter().map(|q| q.x).max().unwrap();
        let min_y = quad.iter().map(|q| q.y).min().unwrap();
        let max_y = quad.iter().map(|q| q.y).max().unwrap();
        assert_eq!((min_x, max_x, min_y, max_y), (x0, x1, y0, y1));
    }
}

#[test]
fn projection_for_800_by_600_and_no_pan() {
    let r = Renderer::new();
    let m = r.proj_matrix(800, 600);
    // Exact rational values first.
    assert_eq!((m.scale_x.num, m.scale_x.den), (2, 800));
    assert_eq!((m.scale_y.num, m.scale_y.den), (-2, 600));
    assert_eq!((m.scale_z.num, m.scale_z.den), (-1, 1));
    assert_eq!((m.translate_x.num, m.translate_x.den), (-8000, 8000));
    assert_eq!((m.translate_y.num, m.translate_y.den), (6000, 8000));
    // And as floating point, as the GPU would see them.
    assert_eq!(as_f64(m.translate_x), -1.0);
    assert_eq!(as_f64(m.translate_y), 0.75);
    assert_eq!(as_f64(m.scale_x), 0.0025);
    assert!((as_f64(m.scale_y) - (-0.003333)).abs() < 1e-6);
}

#[test]
fn projection_reflects_camera_pan() {
    let mut r = Renderer::new();
    r.camera_pos = Vec2 { x: 35, y: -70 };
    let m = r.proj_matrix(400, 300);
    // translate_x = -(10*400 + 2*35) / (10*400)
    assert_eq!((m.translate_x.num, m.translate_x.den), (-4070, 4000));
    // translate_y = (10*300 + 2*(-70)) / (10*400)
    assert_eq!((m.translate_y.num, m.translate_y.den), (2860, 4000));
}

fn ndc(m: &ProjMatrix, x: f64, y: f64) -> (f64, f64) {
    (
        as_f64(m.scale_x) * x + as_f64(m.translate_x),
        as_f64(m.scale_y) * y + as_f64(m.translate_y),
    )
}

#[test]
fn center_of_viewport_maps_to_ndc_origin() {
    // Zero pan; the center in canvas space is the one the fixed formula
    // defines: x = w/2, y = h*h/(2*w), because the Y translation term
    // divides by -w and not -h.
    let r = Renderer::new();
    let m = r.proj_matrix(800, 600);
    let (nx, ny) = ndc(&m, 400.0, 600.0 * 600.0 / 1600.0);
    assert!(nx.abs() < 1e-12);
    assert!(ny.abs() < 1e-12);
    // For a square viewport the two notions of center coincide.
    let m2 = r.proj_matrix(500, 500);
    let (sx, sy) = ndc(&m2, 250.0, 250.0);
    assert!(sx.abs() < 1e-12);
    assert!(sy.abs() < 1e-12);
}

#[test]
fn render_fits_up_to_buffer_capacity() {
    let r = Renderer::new();
    let mut c = Canvas::new();
    for i in 0..341 {
        c.add_view(View::new(format!("v{}", i), 5, 5), i, 0);
    }
    let out = r.render(&c, 800, 600);
    let frame = out.expect("341 views fit the buffer");
    assert_eq!(frame.vertices.len(), 2046);
}

#[test]
fn render_rejects_more_vertices_than_the_buffer_holds() {
    let r = Renderer::new();
    let mut c = Canvas::new();
    for i in 0..342 {
        c.add_view(View::new(format!("v{}", i), 5, 5), i, 0);
    }
    let out = r.render(&c, 800, 600);
    assert_eq!(out.err(), Some(RenderError::TooManyVertices));
}

#[test]
fn render_returns_vertices_and_projection_together() {
    let r = Renderer::new();
    let c = one_view_canvas("v", 800, 600, 0, 0);
    let frame = r.render(&c, 800, 600).expect("one view fits");
    assert_eq!(frame.vertices.len(), 6);
    assert_eq!(frame.vertices[2], Vertex { x: 800, y: 600, z: 0, r: 9, g: 9, b: 9, a: 10 });
    assert_eq!(as_f64(frame.proj.translate_x), -1.0);
}

#[test]
fn fresh_renderer_camera_defaults() {
    let r = Renderer::new();
    assert_eq!(r.camera_pos, Vec2 { x: 0, y: 0 });
    assert_eq!(r.camera_zoom, 10);
}
