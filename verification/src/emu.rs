//! The emulation backend: a software rasterizer that replays a command
//! buffer into an offscreen render target of the console's resolution,
//! with exact integer semantics, so that rendering logic can be exercised
//! and compared pixel for pixel without hardware.
//!
//! Semantics fixed here:
//! - a transform is applied affinely (upper three rows of the 4x4 matrix;
//!   a projection supplied in the matrix must already map to screen
//!   space), producing sample-space coordinates at a scale of `2^32` per
//!   pixel;
//! - a pixel `(x, y)` is covered by a triangle when its sample point
//!   `(x * 2^32, y * 2^32)` lies on or inside all three edges, for either
//!   winding;
//! - shading is flat: the shade color and the depth of a triangle are
//!   taken from its first vertex; depth is the transformed z clamped to
//!   `0 .. 65535`, smaller is nearer, and the depth test passes when the
//!   triangle depth is at most the stored depth;
//! - a triangle with a transformed coordinate outside the guard band of
//!   `2^45` is culled whole.

use vstd::prelude::*;
use crate::cmd::{
    spec_add_mesh_data, spec_set_pipeline, sub_of, CmdView, CommandBuffer, Mat4, MeshData,
    SubView, Submission, Vertex,
};
use crate::pipeline::Pipeline;
use crate::color::{
    blend_pixel, combine, pack_5551, spec_blended, spec_combined, spec_packed_5551,
    spec_prim_color,
};

verus! {

/// Render targets are cleared to opaque black, the console's background.
pub const BACKGROUND_COLOR: u32 = 0x0000_00FF;

/// The depth buffer clear value: as far as possible.
pub const DEPTH_FAR: u16 = 0xFFFF;

/// Sample-space units per pixel.
pub const SAMPLE_SCALE: i128 = 0x1_0000_0000;

/// Transformed coordinates beyond this magnitude cull the triangle.
pub const GUARD_BAND: i128 = 0x2000_0000_0000;

/// Row 0 of the transform applied to a vertex, in sample-space units.
pub open spec fn spec_tx(m: Mat4, v: Vertex) -> int {
    m.m00 * v.x + m.m01 * v.y + m.m02 * v.z + m.m03 * 65536
}

/// Row 1 of the transform applied to a vertex, in sample-space units.
pub open spec fn spec_ty(m: Mat4, v: Vertex) -> int {
    m.m10 * v.x + m.m11 * v.y + m.m12 * v.z + m.m13 * 65536
}

/// Row 2 of the transform applied to a vertex, in sample-space units.
pub open spec fn spec_tz(m: Mat4, v: Vertex) -> int {
    m.m20 * v.x + m.m21 * v.y + m.m22 * v.z + m.m23 * 65536
}

/// The depth value of a transformed z: its pixel part clamped to the
/// 16-bit depth range.
pub open spec fn spec_depth_of(t: int) -> int {
    if t < 0 {
        0
    } else if t >= 0x1_0000_0000_0000 {
        65535
    } else {
        t / 0x1_0000_0000
    }
}

/// A triangle resolved for rasterization: transformed corner coordinates
/// in sample space, flat depth, flat source color, and the pipeline flags
/// that the rasterizer reads.
pub struct TriSpec {
    pub x0: int,
    pub y0: int,
    pub x1: int,
    pub y1: int,
    pub x2: int,
    pub y2: int,
    pub z: int,
    pub src: int,
    pub blend: bool,
    pub z_compare: bool,
    pub z_update: bool,
}

/// Triangle `k` of a submission: corners from the index list, transformed;
/// depth and shade from the first corner; source color from the
/// color-combination formula of the submission's pipeline.
pub open spec fn tri_of(s: SubView, k: int) -> TriSpec {
    let v0 = s.verts[s.indices[3 * k] as int];
    let v1 = s.verts[s.indices[3 * k + 1] as int];
    let v2 = s.verts[s.indices[3 * k + 2] as int];
    TriSpec {
        x0: spec_tx(s.transform, v0),
        y0: spec_ty(s.transform, v0),
        x1: spec_tx(s.transform, v1),
        y1: spec_ty(s.transform, v1),
        x2: spec_tx(s.transform, v2),
        y2: spec_ty(s.transform, v2),
        z: spec_depth_of(spec_tz(s.transform, v0)),
        src: spec_combined(
            s.pipeline.color_combiner_mode,
            s.colors[s.indices[3 * k] as int] as int,
            spec_prim_color(s.pipeline),
        ),
        blend: s.pipeline.blend,
        z_compare: s.pipeline.z_compare,
        z_update: s.pipeline.z_update,
    }
}

/// Twice the signed area of the triangle (a, b, p): positive when p lies
/// to the left of the edge from a to b.
pub open spec fn spec_edge(ax: int, ay: int, bx: int, by: int, px: int, py: int) -> int {
    (bx - ax) * (py - ay) - (by - ay) * (px - ax)
}

/// All corner coordinates lie within the guard band.
pub open spec fn spec_in_band(t: TriSpec) -> bool {
    &&& -GUARD_BAND <= t.x0 <= GUARD_BAND
    &&& -GUARD_BAND <= t.y0 <= GUARD_BAND
    &&& -GUARD_BAND <= t.x1 <= GUARD_BAND
    &&& -GUARD_BAND <= t.y1 <= GUARD_BAND
    &&& -GUARD_BAND <= t.x2 <= GUARD_BAND
    &&& -GUARD_BAND <= t.y2 <= GUARD_BAND
}

/// The sample point (px, py) lies on or inside all three edges, for
/// either winding.
pub open spec fn spec_covers(t: TriSpec, px: int, py: int) -> bool {
    let e0 = spec_edge(t.x0, t.y0, t.x1, t.y1, px, py);
    let e1 = spec_edge(t.x1, t.y1, t.x2, t.y2, px, py);
    let e2 = spec_edge(t.x2, t.y2, t.x0, t.y0, px, py);
    (e0 >= 0 && e1 >= 0 && e2 >= 0) || (e0 <= 0 && e1 <= 0 && e2 <= 0)
}

/// The mathematical value of a render target.
#[verifier::ext_equal]
pub struct TargetView {
    pub width: int,
    pub height: int,
    pub color: Seq<u32>,
    pub depth: Seq<u16>,
}

/// The triangle reaches pixel index `i` of the target: the pixel's sample
/// point is covered and, when the depth test is on, the triangle's depth
/// does not exceed the stored depth.
pub open spec fn spec_tri_hits(t: TriSpec, tv: TargetView, i: int) -> bool {
    &&& spec_covers(t, (i % tv.width) * 0x1_0000_0000, (i / tv.width) * 0x1_0000_0000)
    &&& (!t.z_compare || t.z <= tv.depth[i])
}

/// The color written for a hit pixel: the source color, blended onto the
/// stored color when blending is enabled.
pub open spec fn spec_apply_color(t: TriSpec, dst: u32) -> int {
    if t.blend {
        spec_blended(t.src, dst as int)
    } else {
        t.src
    }
}

/// The render target after rasterizing one triangle: an out-of-band
/// triangle is culled whole; otherwise each hit pixel takes the applied
/// color, and the stored depth when depth write is enabled.
pub open spec fn spec_draw_tri(t: TriSpec, tv: TargetView) -> TargetView {
    if !spec_in_band(t) {
        tv
    } else {
        TargetView {
            width: tv.width,
            height: tv.height,
            color: Seq::new(
                tv.color.len(),
                |i: int|
                    if spec_tri_hits(t, tv, i) {
                        spec_apply_color(t, tv.color[i]) as u32
                    } else {
                        tv.color[i]
                    },
            ),
            depth: Seq::new(
                tv.depth.len(),
                |i: int|
                    if spec_tri_hits(t, tv, i) && t.z_update {
                        t.z as u16
                    } else {
                        tv.depth[i]
                    },
            ),
        }
    }
}

/// The render target after the first `n` triangles of a submission.
pub open spec fn spec_draw_sub_upto(s: SubView, tv: TargetView, n: int) -> TargetView
    decreases n,
{
    if n <= 0 {
        tv
    } else {
        spec_draw_tri(tri_of(s, n - 1), spec_draw_sub_upto(s, tv, n - 1))
    }
}

/// The render target after one whole submission.
pub open spec fn spec_draw_sub(s: SubView, tv: TargetView) -> TargetView {
    spec_draw_sub_upto(s, tv, s.indices.len() as int / 3)
}

/// The render target after replaying a sequence of submissions in order.
pub open spec fn spec_replay(subs: Seq<SubView>, tv: TargetView) -> TargetView
    decreases subs.len(),
{
    if subs.len() == 0 {
        tv
    } else {
        spec_draw_sub(subs.last(), spec_replay(subs.drop_last(), tv))
    }
}

/// An offscreen render target sized to the console output: a color buffer
/// and a depth buffer, both indexed row major.
pub struct RenderTarget {
    width: usize,
    height: usize,
    color: Vec<u32>,
    depth: Vec<u16>,
}

impl View for RenderTarget {
    type V = TargetView;

    closed spec fn view(&self) -> TargetView {
        TargetView {
            width: self.width as int,
            height: self.height as int,
            color: self.color@,
            depth: self.depth@,
        }
    }
}

/// A triangle resolved for rasterization, in executable form.
struct TriRaster {
    x0: i128,
    y0: i128,
    x1: i128,
    y1: i128,
    x2: i128,
    y2: i128,
    z: u16,
    src: u32,
    blend: bool,
    z_compare: bool,
    z_update: bool,
}

impl TriRaster {
    spec fn view(self) -> TriSpec {
        TriSpec {
            x0: self.x0 as int,
            y0: self.y0 as int,
            x1: self.x1 as int,
            y1: self.y1 as int,
            x2: self.x2 as int,
            y2: self.y2 as int,
            z: self.z as int,
            src: self.src as int,
            blend: self.blend,
            z_compare: self.z_compare,
            z_update: self.z_update,
        }
    }
}

fn edge_at(ax: i128, ay: i128, bx: i128, by: i128, px: i128, py: i128) -> (r: i128)
    requires
        -GUARD_BAND <= ax <= GUARD_BAND,
        -GUARD_BAND <= ay <= GUARD_BAND,
        -GUARD_BAND <= bx <= GUARD_BAND,
        -GUARD_BAND <= by <= GUARD_BAND,
        -GUARD_BAND <= px <= GUARD_BAND,
        -GUARD_BAND <= py <= GUARD_BAND,
    ensures
        r == spec_edge(ax as int, ay as int, bx as int, by as int, px as int, py as int),
{
    proof {
        assert((bx - ax) * (py - ay) <= 0x4000_0000_0000 * 0x4000_0000_0000 && (bx - ax) * (py
            - ay) >= -(0x4000_0000_0000 * 0x4000_0000_0000)) by (nonlinear_arith)
            requires
                -0x4000_0000_0000 <= bx - ax <= 0x4000_0000_0000,
                -0x4000_0000_0000 <= py - ay <= 0x4000_0000_0000,
        ;
        assert((by - ay) * (px - ax) <= 0x4000_0000_0000 * 0x4000_0000_0000 && (by - ay) * (px
            - ax) >= -(0x4000_0000_0000 * 0x4000_0000_0000)) by (nonlinear_arith)
            requires
                -0x4000_0000_0000 <= by - ay <= 0x4000_0000_0000,
                -0x4000_0000_0000 <= px - ax <= 0x4000_0000_0000,
        ;
    }
    (bx - ax) * (py - ay) - (by - ay) * (px - ax)
}

impl RenderTarget {
    /// Buffers cover exactly width x height pixels, within the supported
    /// target sizes.
    pub open spec fn wf(self) -> bool {
        &&& self@.color.len() == self@.width * self@.height
        &&& self@.depth.len() == self@.width * self@.height
        &&& 0 < self@.width <= 1024
        &&& 0 < self@.height <= 1024
    }

    /// A fresh target: every pixel the background color, every depth as
    /// far as possible.
    pub fn new(width: usize, height: usize) -> (r: RenderTarget)
        requires
            0 < width <= 1024,
            0 < height <= 1024,
        ensures
            r.wf(),
            r@.width == width,
            r@.height == height,
            forall|i: int| 0 <= i < r@.color.len() ==> r@.color[i] == BACKGROUND_COLOR,
            forall|i: int| 0 <= i < r@.depth.len() ==> r@.depth[i] == DEPTH_FAR,
    {
        proof {
            assert(width * height <= 1024 * 1024) by (nonlinear_arith)
                requires
                    0 < width <= 1024,
                    0 < height <= 1024,
            ;
        }
        let len: usize = width * height;
        let mut color: Vec<u32> = Vec::new();
        let mut depth: Vec<u16> = Vec::new();
        let mut i: usize = 0;
        while i < len
            invariant
                i <= len,
                color@.len() == i,
                depth@.len() == i,
                forall|j: int| 0 <= j < i ==> color@[j] == BACKGROUND_COLOR,
                forall|j: int| 0 <= j < i ==> depth@[j] == DEPTH_FAR,
            decreases len - i,
        {
            color.push(BACKGROUND_COLOR);
            depth.push(DEPTH_FAR);
            i += 1;
        }
        RenderTarget { width, height, color, depth }
    }

    pub fn width(&self) -> (r: usize)
        ensures
            r == self@.width,
    {
        self.width
    }

    pub fn height(&self) -> (r: usize)
        ensures
            r == self@.height,
    {
        self.height
    }

    /// The stored color of pixel (x, y).
    pub fn pixel(&self, x: usize, y: usize) -> (r: u32)
        requires
            self.wf(),
            x < self@.width,
            y < self@.height,
        ensures
            r == self@.color[y * self@.width + x],
    {
        proof {
            assert(y * self@.width + x < self@.width * self@.height && y * self@.width + x
                <= 1024 * 1024) by (nonlinear_arith)
                requires
                    0 <= x < self@.width <= 1024,
                    0 <= y < self@.height <= 1024,
            ;
            assert(y * self@.width + x < self@.color.len());
        }
        self.color[y * self.width + x]
    }

    /// The stored depth of pixel (x, y).
    pub fn depth_at(&self, x: usize, y: usize) -> (r: u16)
        requires
            self.wf(),
            x < self@.width,
            y < self@.height,
        ensures
            r == self@.depth[y * self@.width + x],
    {
        proof {
            assert(y * self@.width + x < self@.width * self@.height && y * self@.width + x
                <= 1024 * 1024) by (nonlinear_arith)
                requires
                    0 <= x < self@.width <= 1024,
                    0 <= y < self@.height <= 1024,
            ;
            assert(y * self@.width + x < self@.depth.len());
        }
        self.depth[y * self.width + x]
    }

    /// The whole target packed into the console's 16-bit framebuffer
    /// format, row major, ready for the video-interface driver.
    pub fn packed_pixels(&self) -> (r: Vec<u16>)
        ensures
            r@.len() == self@.color.len(),
            forall|i: int|
                0 <= i < r@.len() ==> r@[i] == spec_packed_5551(self@.color[i] as int),
    {
        let len = self.color.len();
        let mut r: Vec<u16> = Vec::new();
        let mut i: usize = 0;
        while i < len
            invariant
                i <= len,
                len == self@.color.len(),
                r@.len() == i,
                forall|j: int|
                    0 <= j < i ==> r@[j] == spec_packed_5551(self@.color[j] as int),
            decreases len - i,
        {
            r.push(pack_5551(self.color[i]));
            i += 1;
        }
        r
    }

    fn raster_tri(&mut self, tr: &TriRaster)
        requires
            old(self).wf(),
        ensures
            final(self).wf(),
            final(self)@ == spec_draw_tri(tr.view(), old(self)@),
    {
        let in_band = -GUARD_BAND <= tr.x0 && tr.x0 <= GUARD_BAND && -GUARD_BAND <= tr.y0
            && tr.y0 <= GUARD_BAND && -GUARD_BAND <= tr.x1 && tr.x1 <= GUARD_BAND && -GUARD_BAND
            <= tr.y1 && tr.y1 <= GUARD_BAND && -GUARD_BAND <= tr.x2 && tr.x2 <= GUARD_BAND
            && -GUARD_BAND <= tr.y2 && tr.y2 <= GUARD_BAND;
        if !in_band {
            return ;
        }
        let ghost tv0 = self@;
        let ghost target = spec_draw_tri(tr.view(), tv0);
        let w = self.width;
        let len = self.color.len();
        let mut i: usize = 0;
        while i < len
            invariant
                i <= len,
                self.wf(),
                spec_in_band(tr.view()),
                self@.width == tv0.width,
                self@.height == tv0.height,
                w == tv0.width,
                0 < w <= 1024,
                tv0.height <= 1024,
                len == tv0.color.len(),
                tv0.depth.len() == tv0.color.len(),
                tv0.color.len() == tv0.width * tv0.height,
                self@.color.len() == len,
                self@.depth.len() == len,
                target == spec_draw_tri(tr.view(), tv0),
                target.color.len() == tv0.color.len(),
                target.depth.len() == tv0.depth.len(),
                forall|j: int| i <= j < len ==> self@.color[j] == tv0.color[j],
                forall|j: int| i <= j < len ==> self@.depth[j] == tv0.depth[j],
                forall|j: int| 0 <= j < i ==> self@.color[j] == target.color[j],
                forall|j: int| 0 <= j < i ==> self@.depth[j] == target.depth[j],
            decreases len - i,
        {
            proof {
                assert(w > 0);
                assert((i as int) < (w as int) * tv0.height);
                vstd::arithmetic::div_mod::lemma_mod_bound(i as int, w as int);
                vstd::arithmetic::div_mod::lemma_div_pos_is_pos(i as int, w as int);
                vstd::arithmetic::div_mod::lemma_multiply_divide_lt(i as int, w as int, tv0.height);
            }
            let x = i % w;
            let y = i / w;
            let px: i128 = (x as i128) * SAMPLE_SCALE;
            let py: i128 = (y as i128) * SAMPLE_SCALE;
            proof {
                assert(px <= 1024 * 0x1_0000_0000 && py <= 1024 * 0x1_0000_0000)
                    by (nonlinear_arith)
                    requires
                        0 <= x < 1024 as i128,
                        0 <= y < 1024 as i128,
                        px == x * 0x1_0000_0000,
                        py == y * 0x1_0000_0000,
                ;
            }
            let e0 = edge_at(tr.x0, tr.y0, tr.x1, tr.y1, px, py);
            let e1 = edge_at(tr.x1, tr.y1, tr.x2, tr.y2, px, py);
            let e2 = edge_at(tr.x2, tr.y2, tr.x0, tr.y0, px, py);
            let cov = (e0 >= 0 && e1 >= 0 && e2 >= 0) || (e0 <= 0 && e1 <= 0 && e2 <= 0);
            let hit = cov && (!tr.z_compare || tr.z <= self.depth[i]);
            proof {
                assert(hit == spec_tri_hits(tr.view(), tv0, i as int));
            }
            if hit {
                let c = if tr.blend {
                    blend_pixel(tr.src, self.color[i])
                } else {
                    tr.src
                };
                self.color.set(i, c);
                if tr.z_update {
                    self.depth.set(i, tr.z);
                }
            }
            i += 1;
        }
        proof {
            assert(self@.color =~= target.color);
            assert(self@.depth =~= target.depth);
            assert(self@ =~= target);
        }
    }
}

fn row_apply(a: i32, b: i32, c: i32, d: i32, v: Vertex) -> (r: i128)
    ensures
        r == a * v.x + b * v.y + c * v.z + d * 65536,
{
    proof {
        assert forall|p: i32, q: i32| -0x4000_0000_0000_0000 <= #[trigger] ((p as i128) * (
        q as i128)) <= 0x4000_0000_0000_0000 by {
            assert(-0x4000_0000_0000_0000 <= (p as i128) * (q as i128) <= 0x4000_0000_0000_0000)
                by (nonlinear_arith)
                requires
                    -0x8000_0000 <= p as i128 <= 0x8000_0000,
                    -0x8000_0000 <= q as i128 <= 0x8000_0000,
            ;
        }
    }
    (a as i128) * (v.x as i128) + (b as i128) * (v.y as i128) + (c as i128) * (v.z as i128) + (
    d as i128) * 65536
}

/// Resolves triangle `k` of a submission into rasterizer form.
fn resolve_tri(sub: &Submission, k: usize) -> (tr: TriRaster)
    requires
        sub@.wf(),
        k < sub@.indices.len() / 3,
    ensures
        tr.view() == tri_of(sub@, k as int),
{
    let n_indices = sub.indices.len();
    proof {
        vstd::arithmetic::div_mod::lemma_fundamental_div_mod(n_indices as int, 3);
        assert(n_indices as int == 3 * (n_indices as int / 3));
        assert(3 * k + 2 < n_indices);
    }
    let i0 = sub.indices[3 * k] as usize;
    let i1 = sub.indices[3 * k + 1] as usize;
    let i2 = sub.indices[3 * k + 2] as usize;
    let v0 = sub.verts[i0];
    let v1 = sub.verts[i1];
    let v2 = sub.verts[i2];
    let m = &sub.transform;
    let x0 = row_apply(m.m00, m.m01, m.m02, m.m03, v0);
    let y0 = row_apply(m.m10, m.m11, m.m12, m.m13, v0);
    let x1 = row_apply(m.m00, m.m01, m.m02, m.m03, v1);
    let y1 = row_apply(m.m10, m.m11, m.m12, m.m13, v1);
    let x2 = row_apply(m.m00, m.m01, m.m02, m.m03, v2);
    let y2 = row_apply(m.m10, m.m11, m.m12, m.m13, v2);
    let tz = row_apply(m.m20, m.m21, m.m22, m.m23, v0);
    let z: u16 = if tz < 0 {
        0
    } else if tz >= 0x1_0000_0000_0000 {
        65535
    } else {
        ((tz as u64) / 0x1_0000_0000) as u16
    };
    let prim: u32 = match sub.pipeline.prim_color {
        Some(c) => c,
        None => 0xFFFF_FFFF,
    };
    let src = combine(&sub.pipeline.color_combiner_mode, sub.colors[i0], prim);
    TriRaster {
        x0,
        y0,
        x1,
        y1,
        x2,
        y2,
        z,
        src,
        blend: sub.pipeline.blend,
        z_compare: sub.pipeline.z_compare,
        z_update: sub.pipeline.z_update,
    }
}

impl CommandBuffer {
    /// Replays the recorded submissions, in their recorded order, into the
    /// render target.
    pub fn flush(&self, target: &mut RenderTarget)
        requires
            self.wf(),
            old(target).wf(),
        ensures
            final(target).wf(),
            final(target)@ == spec_replay(self@.subs, old(target)@),
            final(target)@.width == old(target)@.width,
            final(target)@.height == old(target)@.height,
    {
        let ghost tv0 = target@;
        let n = self.len();
        let mut si: usize = 0;
        while si < n
            invariant
                si <= n,
                n == self@.subs.len(),
                self.wf(),
                target.wf(),
                target@.width == tv0.width,
                target@.height == tv0.height,
                target@ == spec_replay(self@.subs.take(si as int), tv0),
            decreases n - si,
        {
            let sub = self.submission(si);
            let ghost tvs = target@;
            let ntri = sub.indices.len() / 3;
            let mut k: usize = 0;
            while k < ntri
                invariant
                    k <= ntri,
                    sub@.wf(),
                    sub@ == self@.subs[si as int],
                    si < self@.subs.len(),
                    ntri == sub@.indices.len() / 3,
                    target.wf(),
                    target@.width == tvs.width,
                    target@.height == tvs.height,
                    target@ == spec_draw_sub_upto(sub@, tvs, k as int),
                decreases ntri - k,
            {
                let tr = resolve_tri(sub, k);
                target.raster_tri(&tr);
                k += 1;
            }
            proof {
                assert(target@ == spec_draw_sub(sub@, tvs));
                assert(self@.subs.take(si + 1).drop_last() =~= self@.subs.take(si as int));
                assert(self@.subs.take(si + 1).last() == self@.subs[si as int]);
                assert(spec_replay(self@.subs.take(si + 1), tv0) == spec_draw_sub(
                    self@.subs[si as int],
                    spec_replay(self@.subs.take(si as int), tv0),
                ));
            }
            si += 1;
        }
        proof {
            assert(self@.subs.take(n as int) =~= self@.subs);
        }
    }
}


/// Replaying a command buffer is a function of its recorded contents and
/// the starting render target alone: the same contents replayed against
/// equal targets produce equal targets (determinism).
pub proof fn lemma_replay_deterministic(
    a: Seq<SubView>,
    b: Seq<SubView>,
    t1: TargetView,
    t2: TargetView,
)
    requires
        a == b,
        t1 == t2,
    ensures
        spec_replay(a, t1) == spec_replay(b, t2),
{
}

/// A flush with zero recorded submissions leaves the render target
/// unchanged.
pub proof fn lemma_replay_empty(subs: Seq<SubView>, tv: TargetView)
    requires
        subs.len() == 0,
    ensures
        spec_replay(subs, tv) == tv,
{
}

/// Appending one submission and replaying renders the earlier submissions
/// first and the appended one last.
pub proof fn lemma_replay_push(subs: Seq<SubView>, x: SubView, tv: TargetView)
    ensures
        spec_replay(subs.push(x), tv) == spec_draw_sub(x, spec_replay(subs, tv)),
{
    assert(subs.push(x).drop_last() =~= subs);
    assert(subs.push(x).last() == x);
}

/// Pipeline stickiness: from any buffer state, setting pipeline `p`,
/// submitting `m1` and `m2`, setting pipeline `q` and submitting `m3`
/// records `m1` and `m2` under `p` and `m3` under `q`, and a flush renders
/// the three, in order, each with exactly the pipeline it was recorded
/// under.
pub proof fn lemma_pipeline_stickiness(
    c: CmdView,
    p: Pipeline,
    q: Pipeline,
    m1: MeshData,
    m2: MeshData,
    m3: MeshData,
    tv: TargetView,
)
    ensures
        ({
            let c2 = spec_add_mesh_data(
                spec_set_pipeline(
                    spec_add_mesh_data(spec_add_mesh_data(spec_set_pipeline(c, p), m1), m2),
                    q,
                ),
                m3,
            );
            &&& c2.subs.len() == c.subs.len() + 3
            &&& c2.subs[c.subs.len() as int] == sub_of(p, m1)
            &&& c2.subs[c.subs.len() + 1 as int] == sub_of(p, m2)
            &&& c2.subs[c.subs.len() + 2 as int] == sub_of(q, m3)
            &&& spec_replay(c2.subs, tv) == spec_draw_sub(
                sub_of(q, m3),
                spec_draw_sub(
                    sub_of(p, m2),
                    spec_draw_sub(sub_of(p, m1), spec_replay(c.subs, tv)),
                ),
            )
        }),
{
    let s1 = sub_of(p, m1);
    let s2 = sub_of(p, m2);
    let s3 = sub_of(q, m3);
    let c2 = spec_add_mesh_data(
        spec_set_pipeline(spec_add_mesh_data(spec_add_mesh_data(spec_set_pipeline(c, p), m1), m2), q),
        m3,
    );
    assert(c2.subs =~= c.subs.push(s1).push(s2).push(s3));
    lemma_replay_push(c.subs.push(s1).push(s2), s3, tv);
    lemma_replay_push(c.subs.push(s1), s2, tv);
    lemma_replay_push(c.subs, s1, tv);
}

/// The triangle's footprint contains the sample point of pixel (x, y).
pub open spec fn spec_tri_covers_pixel(t: TriSpec, x: int, y: int) -> bool {
    spec_in_band(t) && spec_covers(t, x * 0x1_0000_0000, y * 0x1_0000_0000)
}

/// Some triangle of the submission covers pixel (x, y).
pub open spec fn spec_sub_covers_pixel(s: SubView, x: int, y: int) -> bool {
    exists|k: int|
        0 <= k < s.indices.len() as int / 3 && spec_tri_covers_pixel(#[trigger] tri_of(s, k), x, y)
}

/// Some triangle of some submission covers pixel (x, y).
pub open spec fn spec_any_covers_pixel(subs: Seq<SubView>, x: int, y: int) -> bool {
    exists|j: int| 0 <= j < subs.len() && spec_sub_covers_pixel(#[trigger] subs[j], x, y)
}

proof fn lemma_draw_tri_dims(t: TriSpec, tv: TargetView)
    ensures
        spec_draw_tri(t, tv).width == tv.width,
        spec_draw_tri(t, tv).height == tv.height,
        spec_draw_tri(t, tv).color.len() == tv.color.len(),
        spec_draw_tri(t, tv).depth.len() == tv.depth.len(),
{
}

proof fn lemma_draw_sub_upto_dims(s: SubView, tv: TargetView, n: int)
    ensures
        spec_draw_sub_upto(s, tv, n).width == tv.width,
        spec_draw_sub_upto(s, tv, n).height == tv.height,
        spec_draw_sub_upto(s, tv, n).color.len() == tv.color.len(),
        spec_draw_sub_upto(s, tv, n).depth.len() == tv.depth.len(),
    decreases n,
{
    if n > 0 {
        lemma_draw_sub_upto_dims(s, tv, n - 1);
        lemma_draw_tri_dims(tri_of(s, n - 1), spec_draw_sub_upto(s, tv, n - 1));
    }
}

proof fn lemma_replay_dims(subs: Seq<SubView>, tv: TargetView)
    ensures
        spec_replay(subs, tv).width == tv.width,
        spec_replay(subs, tv).height == tv.height,
        spec_replay(subs, tv).color.len() == tv.color.len(),
        spec_replay(subs, tv).depth.len() == tv.depth.len(),
    decreases subs.len(),
{
    if subs.len() > 0 {
        lemma_replay_dims(subs.drop_last(), tv);
        lemma_draw_sub_upto_dims(subs.last(), spec_replay(subs.drop_last(), tv), subs.last().indices.len() as int / 3);
    }
}

proof fn lemma_draw_tri_pixel_untouched(t: TriSpec, tv: TargetView, x: int, y: int)
    requires
        0 <= x < tv.width,
        0 <= y < tv.height,
        tv.color.len() == tv.width * tv.height,
        tv.depth.len() == tv.width * tv.height,
        !spec_tri_covers_pixel(t, x, y),
    ensures
        spec_draw_tri(t, tv).color[y * tv.width + x] == tv.color[y * tv.width + x],
        spec_draw_tri(t, tv).depth[y * tv.width + x] == tv.depth[y * tv.width + x],
{
    let i = y * tv.width + x;
    assert(0 <= i && i < tv.width * tv.height) by (nonlinear_arith)
        requires
            0 <= x < tv.width,
            0 <= y < tv.height,
            i == y * tv.width + x,
    ;
    vstd::arithmetic::div_mod::lemma_fundamental_div_mod_converse(i, tv.width, y, x);
    if spec_in_band(t) {
        assert(!spec_covers(t, x * 0x1_0000_0000, y * 0x1_0000_0000));
        assert(!spec_tri_hits(t, tv, i));
    }
}

proof fn lemma_draw_sub_upto_pixel_untouched(s: SubView, tv: TargetView, n: int, x: int, y: int)
    requires
        0 <= x < tv.width,
        0 <= y < tv.height,
        tv.color.len() == tv.width * tv.height,
        tv.depth.len() == tv.width * tv.height,
        n <= s.indices.len() as int / 3,
        !spec_sub_covers_pixel(s, x, y),
    ensures
        spec_draw_sub_upto(s, tv, n).color[y * tv.width + x] == tv.color[y * tv.width + x],
        spec_draw_sub_upto(s, tv, n).depth[y * tv.width + x] == tv.depth[y * tv.width + x],
    decreases n,
{
    if n > 0 {
        lemma_draw_sub_upto_pixel_untouched(s, tv, n - 1, x, y);
        lemma_draw_sub_upto_dims(s, tv, n - 1);
        let tv1 = spec_draw_sub_upto(s, tv, n - 1);
        assert(!spec_tri_covers_pixel(tri_of(s, n - 1), x, y));
        lemma_draw_tri_pixel_untouched(tri_of(s, n - 1), tv1, x, y);
    }
}

/// Outside the union of the submitted triangles' footprints the render
/// target is untouched: a replay changes the color or depth of a pixel
/// only if some recorded triangle covers that pixel's sample point.
pub proof fn lemma_untouched_outside_footprint(
    subs: Seq<SubView>,
    tv: TargetView,
    x: int,
    y: int,
)
    requires
        0 <= x < tv.width,
        0 <= y < tv.height,
        tv.color.len() == tv.width * tv.height,
        tv.depth.len() == tv.width * tv.height,
        !spec_any_covers_pixel(subs, x, y),
    ensures
        spec_replay(subs, tv).color[y * tv.width + x] == tv.color[y * tv.width + x],
        spec_replay(subs, tv).depth[y * tv.width + x] == tv.depth[y * tv.width + x],
    decreases subs.len(),
{
    if subs.len() > 0 {
        assert(forall|j: int|
            0 <= j < subs.drop_last().len() ==> subs.drop_last()[j] == subs[j]);
        assert(!spec_any_covers_pixel(subs.drop_last(), x, y));
        lemma_untouched_outside_footprint(subs.drop_last(), tv, x, y);
        lemma_replay_dims(subs.drop_last(), tv);
        let tv1 = spec_replay(subs.drop_last(), tv);
        assert(!spec_sub_covers_pixel(subs.last(), x, y));
        lemma_draw_sub_upto_pixel_untouched(
            subs.last(),
            tv1,
            subs.last().indices.len() as int / 3,
            x,
            y,
        );
    }
}

} // verus!
