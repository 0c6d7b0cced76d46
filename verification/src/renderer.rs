//! The renderer core: camera state, vertex generation for the canvas,
//! and the orthographic projection matrix.
//!
//! All values are exact integers. Camera pan and zoom are kept in tenths
//! (a zoom of 10 is the neutral factor 1.0); projection matrix entries
//! are exact rational numbers. The caller that owns the GPU resources
//! converts these to floating point when uploading.

use vstd::prelude::*;

use crate::canvas::Canvas;
use crate::canvas::ViewOnCanvas;
use crate::geometry::Vec2;

verus! {

/// Capacity of the GPU vertex buffer, in vertices: a hard ceiling on
/// total quad vertices per frame (no dynamic resize exists).
pub const VERTEX_BUF_CAPACITY: usize = 2048;

/// One vertex of the triangle list: a position and an RGBA color.
/// Positions are whole canvas pixels; color channels are in tenths of
/// full intensity (10 = 1.0).
#[derive(Clone, Copy, Debug, PartialEq, Eq, Structural)]
pub struct Vertex {
    /// X, Y, Z position in canvas pixels.
    pub x: i64,
    pub y: i64,
    pub z: i64,
    /// R, G, B, A color channels, in tenths of full intensity.
    pub r: i64,
    pub g: i64,
    pub b: i64,
    pub a: i64,
}

impl Vertex {
    pub fn new(x: i64, y: i64, z: i64, r: i64, g: i64, b: i64, a: i64) -> (v: Vertex)
        ensures
            v == (Vertex { x, y, z, r, g, b, a }),
    {
        Vertex { x, y, z, r, g, b, a }
    }
}

/// The vertex at position `k` (0..6) of the quad emitted for one placed
/// view: two triangles covering the view's rectangle on the canvas,
/// top-left, top-right, bottom-right, then top-left, bottom-left,
/// bottom-right, all light gray and fully opaque, at z = 0.
pub open spec fn quad_vertex(e: ViewOnCanvas, k: int) -> Vertex {
    let x0 = e.canvas_pos.x as int;
    let y0 = e.canvas_pos.y as int;
    let x1 = x0 + e.view.resolution.x;
    let y1 = y0 + e.view.resolution.y;
    let x = if k == 0 || k == 3 || k == 4 { x0 } else { x1 };
    let y = if k == 0 || k == 1 || k == 3 { y0 } else { y1 };
    Vertex { x: x as i64, y: y as i64, z: 0, r: 9, g: 9, b: 9, a: 10 }
}

/// The six vertices emitted for one placed view cover exactly the
/// rectangle from `canvas_pos` to `canvas_pos + resolution`: every
/// vertex lies inside it, the first vertex is its top-left corner and
/// the third its bottom-right corner, so the bounding box of the quad
/// equals the view's placed rectangle.
pub proof fn lemma_quad_bounding_box(e: ViewOnCanvas)
    requires
        e.wf(),
    ensures
        forall|k: int|
            0 <= k < 6 ==> e.canvas_pos.x <= (#[trigger] quad_vertex(e, k)).x <= e.canvas_pos.x
                + e.view.resolution.x,
        forall|k: int|
            0 <= k < 6 ==> e.canvas_pos.y <= (#[trigger] quad_vertex(e, k)).y <= e.canvas_pos.y
                + e.view.resolution.y,
        quad_vertex(e, 0).x == e.canvas_pos.x,
        quad_vertex(e, 0).y == e.canvas_pos.y,
        quad_vertex(e, 2).x == e.canvas_pos.x + e.view.resolution.x,
        quad_vertex(e, 2).y == e.canvas_pos.y + e.view.resolution.y,
{
}

/// An exact rational number; the denominator is always positive.
#[derive(Clone, Copy, Debug, PartialEq, Eq, Structural)]
pub struct Rat {
    pub num: i128,
    pub den: i128,
}

impl Rat {
    pub open spec fn wf(self) -> bool {
        self.den > 0
    }
}

/// The orthographic projection matrix, as its five non-trivial entries.
/// In the homogeneous 4x4 layout, `scale_x`, `scale_y` and `scale_z` sit
/// on the diagonal, `translate_x` and `translate_y` in the last row, the
/// bottom-right entry is 1 and every other entry is 0.
#[derive(Clone, Copy, Debug, PartialEq, Eq, Structural)]
pub struct ProjMatrix {
    pub scale_x: Rat,
    pub scale_y: Rat,
    pub scale_z: Rat,
    pub translate_x: Rat,
    pub translate_y: Rat,
}

/// The exact entries of the projection for a `w` x `h` pixel target and
/// a camera pan of `(cx, cy)` tenths of a pixel:
///
/// - scale_x = 2/w, scale_y = -2/h, scale_z = -1,
/// - translate_x = -(w + 2*(cx/10))/w = -(10*w + 2*cx) / (10*w),
/// - translate_y = -(h + 2*(cy/10))/(-w) = (10*h + 2*cy) / (10*w).
///
/// The Y translation divides by `-w`, not `-h`: a deliberate quirk of
/// this tool's fixed formula, reproduced here exactly.
pub open spec fn proj_entries(m: ProjMatrix, w: int, h: int, cx: int, cy: int) -> bool {
    &&& m.scale_x.num == 2
    &&& m.scale_x.den == w
    &&& m.scale_y.num == -2
    &&& m.scale_y.den == h
    &&& m.scale_z.num == -1
    &&& m.scale_z.den == 1
    &&& m.translate_x.num == -(10 * w + 2 * cx)
    &&& m.translate_x.den == 10 * w
    &&& m.translate_y.num == 10 * h + 2 * cy
    &&& m.translate_y.den == 10 * w
}

/// All five entries have positive denominators.
pub open spec fn proj_wf(m: ProjMatrix) -> bool {
    m.scale_x.wf() && m.scale_y.wf() && m.scale_z.wf() && m.translate_x.wf()
        && m.translate_y.wf()
}

/// The numerator of `scale * (pn/pd) + translate`: the first NDC
/// coordinate step of the projection applied to a point with rational
/// coordinate `pn/pd`, written over the common denominator
/// `apply_den(scale, translate, pd)`.
pub open spec fn apply_num(scale: Rat, translate: Rat, pn: int, pd: int) -> int {
    scale.num * pn * translate.den + translate.num * (scale.den * pd)
}

/// The denominator matching `apply_num`.
pub open spec fn apply_den(scale: Rat, translate: Rat, pd: int) -> int {
    scale.den * pd * translate.den
}

/// Round trip through the projection: with zero camera pan, the
/// canvas-space point at the exact center of the viewport maps to
/// normalized device coordinates (0, 0) — exactly, in rational
/// arithmetic. The center is the one the projection formula itself
/// defines: x = w/2, and, because the Y translation divides by `-w`
/// rather than `-h`, y = h*h/(2*w) (which is h/2 exactly when w == h).
pub proof fn lemma_center_round_trip(m: ProjMatrix, w: int, h: int)
    requires
        w >= 1,
        h >= 1,
        proj_entries(m, w, h, 0, 0),
    ensures
        apply_num(m.scale_x, m.translate_x, w, 2) == 0,
        apply_den(m.scale_x, m.translate_x, 2) > 0,
        apply_num(m.scale_y, m.translate_y, h * h, 2 * w) == 0,
        apply_den(m.scale_y, m.translate_y, 2 * w) > 0,
{
    let sxn = m.scale_x.num as int;
    let sxd = m.scale_x.den as int;
    let txn = m.translate_x.num as int;
    let txd = m.translate_x.den as int;
    assert(sxn * w * txd + txn * (sxd * 2) == 0) by (nonlinear_arith)
        requires
            sxn == 2,
            sxd == w,
            txn == -(10 * w),
            txd == 10 * w,
    ;
    assert(sxd * 2 * txd > 0) by (nonlinear_arith)
        requires
            sxd == w,
            txd == 10 * w,
            w >= 1,
    ;
    let syn = m.scale_y.num as int;
    let syd = m.scale_y.den as int;
    let tyn = m.translate_y.num as int;
    let tyd = m.translate_y.den as int;
    assert(syn * (h * h) * tyd + tyn * (syd * (2 * w)) == 0) by (nonlinear_arith)
        requires
            syn == -2,
            syd == h,
            tyn == 10 * h,
            tyd == 10 * w,
    ;
    assert(syd * (2 * w) * tyd > 0) by (nonlinear_arith)
        requires
            syd == h,
            tyd == 10 * w,
            w >= 1,
            h >= 1,
    ;
}

/// Per-frame error: the only recoverable-by-reporting condition is a
/// vertex list larger than the fixed buffer capacity.
#[derive(Clone, Copy, Debug, PartialEq, Eq, Structural)]
pub enum RenderError {
    /// The canvas needs more vertices than the buffer can hold.
    TooManyVertices,
}

/// Everything a frame needs from the core: the vertex list to upload and
/// the projection matrix to bind.
pub struct FrameData {
    pub vertices: Vec<Vertex>,
    pub proj: ProjMatrix,
}

/// The renderer core: the camera state read by the projection each
/// frame. The GPU buffer and shader program it drives live with the
/// display glue that owns the window.
pub struct Renderer {
    /// Camera pan offset, in tenths of a canvas pixel.
    pub camera_pos: Vec2,
    /// Camera zoom, in tenths: a scalar multiplier on pointer-delta to
    /// pan conversion, never below 1 (i.e. 0.1).
    pub camera_zoom: i64,
}

impl Renderer {
    /// The zoom floor: the camera zoom never goes below 0.1.
    pub open spec fn wf(self) -> bool {
        self.camera_zoom >= 1
    }

    /// A fresh renderer core: no pan, neutral zoom.
    pub fn new() -> (r: Renderer)
        ensures
            r.camera_pos == (Vec2 { x: 0, y: 0 }),
            r.camera_zoom == 10,
            r.wf(),
    {
        Renderer { camera_pos: Vec2 { x: 0, y: 0 }, camera_zoom: 10 }
    }

    /// Generates vertex data given a reference to a canvas: for each
    /// placed view, in canvas order, the six vertices of its quad.
    pub fn gen_vertex_data_from_canvas(&self, canvas: &Canvas) -> (v: Vec<Vertex>)
        requires
            canvas.wf(),
            canvas.view_list@.len() * 6 <= usize::MAX,
        ensures
            v@.len() == 6 * canvas.view_list@.len(),
            forall|i: int, k: int|
                0 <= i < canvas.view_list@.len() && 0 <= k < 6 ==> v@[6 * i + k]
                    == #[trigger] quad_vertex(canvas.view_list@[i], k),
    {
        let mut v_data: Vec<Vertex> = Vec::new();
        let mut n: usize = 0;
        while n < canvas.view_list.len()
            invariant
                canvas.wf(),
                canvas.view_list@.len() * 6 <= usize::MAX,
                n <= canvas.view_list@.len(),
                v_data@.len() == 6 * n,
                forall|i: int, k: int|
                    0 <= i < n && 0 <= k < 6 ==> v_data@[6 * i + k] == #[trigger] quad_vertex(
                        canvas.view_list@[i],
                        k,
                    ),
            decreases canvas.view_list@.len() - n,
        {
            let e = &canvas.view_list[n];
            assert(e.wf());
            let x0 = e.canvas_pos.x;
            let y0 = e.canvas_pos.y;
            let x1 = x0 + e.view.resolution.x;
            let y1 = y0 + e.view.resolution.y;
            v_data.push(Vertex::new(x0, y0, 0, 9, 9, 9, 10));
            v_data.push(Vertex::new(x1, y0, 0, 9, 9, 9, 10));
            v_data.push(Vertex::new(x1, y1, 0, 9, 9, 9, 10));
            v_data.push(Vertex::new(x0, y0, 0, 9, 9, 9, 10));
            v_data.push(Vertex::new(x0, y1, 0, 9, 9, 9, 10));
            v_data.push(Vertex::new(x1, y1, 0, 9, 9, 9, 10));
            n = n + 1;
        }
        v_data
    }

    /// Computes the orthographic projection for a `w` x `h` pixel target
    /// from the current camera pan.
    pub fn proj_matrix(&self, w: u32, h: u32) -> (m: ProjMatrix)
        requires
            w >= 1,
            h >= 1,
        ensures
            proj_entries(m, w as int, h as int, self.camera_pos.x as int, self.camera_pos.y as int),
            proj_wf(m),
    {
        let w128 = w as i128;
        let h128 = h as i128;
        let cx = self.camera_pos.x as i128;
        let cy = self.camera_pos.y as i128;
        ProjMatrix {
            scale_x: Rat { num: 2, den: w128 },
            scale_y: Rat { num: -2, den: h128 },
            scale_z: Rat { num: -1, den: 1 },
            translate_x: Rat { num: -(10 * w128 + 2 * cx), den: 10 * w128 },
            translate_y: Rat { num: 10 * h128 + 2 * cy, den: 10 * w128 },
        }
    }

    /// Produce everything one frame needs for a `w` x `h` pixel target:
    /// the full vertex list regenerated from the canvas, and the
    /// projection from the current camera state. Fails, reporting the
    /// overflow, exactly when the canvas needs more vertices than the
    /// fixed buffer capacity.
    pub fn render(&self, canvas: &Canvas, w: u32, h: u32) -> (r: Result<FrameData, RenderError>)
        requires
            canvas.wf(),
            w >= 1,
            h >= 1,
        ensures
            r is Err <==> 6 * canvas.view_list@.len() > VERTEX_BUF_CAPACITY,
            r matches Err(e) ==> e == RenderError::TooManyVertices,
            r matches Ok(f) ==> {
                &&& f.vertices@.len() == 6 * canvas.view_list@.len()
                &&& forall|i: int, k: int|
                    0 <= i < canvas.view_list@.len() && 0 <= k < 6 ==> f.vertices@[6 * i + k]
                        == #[trigger] quad_vertex(canvas.view_list@[i], k)
                &&& proj_entries(
                    f.proj,
                    w as int,
                    h as int,
                    self.camera_pos.x as int,
                    self.camera_pos.y as int,
                )
                &&& proj_wf(f.proj)
            },
    {
        let n = canvas.view_list.len();
        if n > VERTEX_BUF_CAPACITY / 6 {
            return Err(RenderError::TooManyVertices);
        }
        let vertices = self.gen_vertex_data_from_canvas(canvas);
        let proj = self.proj_matrix(w, h);
        Ok(FrameData { vertices, proj })
    }
}

} // verus!
