//! The command buffer: an ordered, insertion-order-significant sequence of
//! (pipeline, mesh) submissions accumulated during one frame and replayed
//! as a whole by a backend.
//!
//! Geometry is held in 16.16 fixed-point integers: one unit of world space
//! is `65536`. A transform is a full 4x4 matrix of 16.16 entries; the
//! rasterizer of this crate applies its upper three rows affinely.

use vstd::prelude::*;
use crate::pipeline::Pipeline;

verus! {

/// One 16.16 fixed-point unit.
pub const FIXED_ONE: i32 = 65536;

/// A vertex position in 16.16 fixed point.
#[derive(Clone, Copy, PartialEq, Eq, Structural, Debug)]
pub struct Vertex {
    pub x: i32,
    pub y: i32,
    pub z: i32,
}

/// A texture coordinate in 16.16 fixed point.
#[derive(Clone, Copy, PartialEq, Eq, Structural, Debug)]
pub struct TexCoord {
    pub u: i32,
    pub v: i32,
}

/// A 4x4 transform matrix in 16.16 fixed point, row major: row `r`,
/// column `c` is `m<r><c>`, and a point transforms as a column vector
/// `(x, y, z, 1)` multiplied from the right.
#[derive(Clone, Copy, PartialEq, Eq, Structural, Debug)]
pub struct Mat4 {
    pub m00: i32,
    pub m01: i32,
    pub m02: i32,
    pub m03: i32,
    pub m10: i32,
    pub m11: i32,
    pub m12: i32,
    pub m13: i32,
    pub m20: i32,
    pub m21: i32,
    pub m22: i32,
    pub m23: i32,
    pub m30: i32,
    pub m31: i32,
    pub m32: i32,
    pub m33: i32,
}

impl Mat4 {
    pub open spec fn spec_identity() -> Mat4 {
        Mat4 {
            m00: 65536,
            m01: 0,
            m02: 0,
            m03: 0,
            m10: 0,
            m11: 65536,
            m12: 0,
            m13: 0,
            m20: 0,
            m21: 0,
            m22: 65536,
            m23: 0,
            m30: 0,
            m31: 0,
            m32: 0,
            m33: 65536,
        }
    }

    pub fn identity() -> (r: Mat4)
        ensures
            r == Mat4::spec_identity(),
    {
        Mat4 {
            m00: 65536,
            m01: 0,
            m02: 0,
            m03: 0,
            m10: 0,
            m11: 65536,
            m12: 0,
            m13: 0,
            m20: 0,
            m21: 0,
            m22: 65536,
            m23: 0,
            m30: 0,
            m31: 0,
            m32: 0,
            m33: 65536,
        }
    }
}

/// One recorded submission: the pipeline that was active when it was
/// added, the parallel vertex arrays, the triangle-list index list and the
/// transform.
pub struct Submission {
    pub pipeline: Pipeline,
    pub verts: Vec<Vertex>,
    pub uvs: Vec<TexCoord>,
    pub colors: Vec<u32>,
    pub indices: Vec<u16>,
    pub transform: Mat4,
}

/// The mathematical value of a submission.
#[verifier::ext_equal]
pub struct SubView {
    pub pipeline: Pipeline,
    pub verts: Seq<Vertex>,
    pub uvs: Seq<TexCoord>,
    pub colors: Seq<u32>,
    pub indices: Seq<u16>,
    pub transform: Mat4,
}

impl SubView {
    /// Parallel arrays of equal length, a whole number of triangles, and
    /// every index in range.
    pub open spec fn wf(self) -> bool {
        &&& self.uvs.len() == self.verts.len()
        &&& self.colors.len() == self.verts.len()
        &&& self.indices.len() % 3 == 0
        &&& forall|i: int|
            0 <= i < self.indices.len() ==> (#[trigger] self.indices[i]) < self.verts.len()
    }
}

impl View for Submission {
    type V = SubView;

    open spec fn view(&self) -> SubView {
        SubView {
            pipeline: self.pipeline,
            verts: self.verts@,
            uvs: self.uvs@,
            colors: self.colors@,
            indices: self.indices@,
            transform: self.transform,
        }
    }
}

/// The mathematical value of a command buffer: the active pipeline and the
/// recorded submissions in order.
#[verifier::ext_equal]
pub struct CmdView {
    pub pipeline: Pipeline,
    pub subs: Seq<SubView>,
}

/// Recording a pipeline change: the active pipeline is replaced, the
/// recorded submissions are untouched.
pub open spec fn spec_set_pipeline(c: CmdView, p: Pipeline) -> CmdView {
    CmdView { pipeline: p, subs: c.subs }
}

/// Recording a mesh: one submission tagged with the active pipeline is
/// appended; the active pipeline is unchanged (state is sticky).
pub open spec fn spec_add_mesh(
    c: CmdView,
    verts: Seq<Vertex>,
    uvs: Seq<TexCoord>,
    colors: Seq<u32>,
    indices: Seq<u16>,
    transform: Mat4,
) -> CmdView {
    CmdView {
        pipeline: c.pipeline,
        subs: c.subs.push(
            SubView { pipeline: c.pipeline, verts, uvs, colors, indices, transform },
        ),
    }
}

/// The plain data of one mesh, grouped so that laws relating several
/// recording calls can quantify over whole meshes.
pub struct MeshData {
    pub verts: Seq<Vertex>,
    pub uvs: Seq<TexCoord>,
    pub colors: Seq<u32>,
    pub indices: Seq<u16>,
    pub transform: Mat4,
}

/// `spec_add_mesh` with the mesh's arrays grouped.
pub open spec fn spec_add_mesh_data(c: CmdView, m: MeshData) -> CmdView {
    spec_add_mesh(c, m.verts, m.uvs, m.colors, m.indices, m.transform)
}

/// The submission that recording mesh `m` under pipeline `p` appends.
pub open spec fn sub_of(p: Pipeline, m: MeshData) -> SubView {
    SubView {
        pipeline: p,
        verts: m.verts,
        uvs: m.uvs,
        colors: m.colors,
        indices: m.indices,
        transform: m.transform,
    }
}

/// An ordered log of mesh submissions for one frame, each tagged with the
/// pipeline that was active when it was added.
pub struct CommandBuffer {
    pipeline: Pipeline,
    submissions: Vec<Submission>,
}

impl View for CommandBuffer {
    type V = CmdView;

    closed spec fn view(&self) -> CmdView {
        CmdView {
            pipeline: self.pipeline,
            subs: self.submissions@.map_values(|s: Submission| s@),
        }
    }
}

pub(crate) fn copy_vec<T: Copy>(v: &Vec<T>) -> (r: Vec<T>)
    ensures
        r@ == v@,
{
    let mut r: Vec<T> = Vec::new();
    let mut i: usize = 0;
    while i < v.len()
        invariant
            i <= v.len(),
            r@ == v@.take(i as int),
        decreases v.len() - i,
    {
        r.push(v[i]);
        proof {
            assert(r@ =~= v@.take(i as int + 1));
        }
        i += 1;
    }
    proof {
        assert(v@.take(v@.len() as int) =~= v@);
    }
    r
}

impl CommandBuffer {
    /// Every recorded submission is well formed.
    pub open spec fn wf(self) -> bool {
        forall|i: int| 0 <= i < self@.subs.len() ==> (#[trigger] self@.subs[i]).wf()
    }

    /// A new, empty command buffer with the default pipeline active.
    pub fn new() -> (r: CommandBuffer)
        ensures
            r@.subs == Seq::<SubView>::empty(),
            r@.pipeline == Pipeline::spec_default(),
            r.wf(),
    {
        let r = CommandBuffer { pipeline: Pipeline::default(), submissions: Vec::new() };
        proof {
            assert(r@.subs =~= Seq::<SubView>::empty());
        }
        r
    }

    /// Records the pipeline state used by subsequent submissions. Emits no
    /// draw itself.
    pub fn set_pipeline(&mut self, p: &Pipeline)
        ensures
            final(self)@ == spec_set_pipeline(old(self)@, *p),
            old(self).wf() ==> final(self).wf(),
    {
        self.pipeline = *p;
    }

    /// Appends one submission tagged with the currently active pipeline.
    /// The arrays must be parallel (equal lengths), the index list must
    /// describe whole triangles, and every index must be in range; those
    /// are caller obligations, not runtime errors.
    pub fn add_mesh_indexed(
        &mut self,
        verts: &Vec<Vertex>,
        uvs: &Vec<TexCoord>,
        colors: &Vec<u32>,
        indices: &Vec<u16>,
        transform: &Mat4,
    )
        requires
            uvs@.len() == verts@.len(),
            colors@.len() == verts@.len(),
            indices@.len() % 3 == 0,
            forall|i: int| 0 <= i < indices@.len() ==> (#[trigger] indices@[i]) < verts@.len(),
        ensures
            final(self)@ == spec_add_mesh(
                old(self)@,
                verts@,
                uvs@,
                colors@,
                indices@,
                *transform,
            ),
            old(self).wf() ==> final(self).wf(),
    {
        let sub = Submission {
            pipeline: self.pipeline,
            verts: copy_vec(verts),
            uvs: copy_vec(uvs),
            colors: copy_vec(colors),
            indices: copy_vec(indices),
            transform: *transform,
        };
        proof {
            assert(self.submissions@.push(sub).map_values(|s: Submission| s@)
                =~= self.submissions@.map_values(|s: Submission| s@).push(sub@));
        }
        self.submissions.push(sub);
        proof {
            assert(self@ =~= spec_add_mesh(
                old(self)@,
                verts@,
                uvs@,
                colors@,
                indices@,
                *transform,
            ));
        }
    }

    /// Resets the buffer to empty and the active pipeline to the default;
    /// called once per frame after the flush.
    pub fn clear(&mut self)
        ensures
            final(self)@.subs == Seq::<SubView>::empty(),
            final(self)@.pipeline == Pipeline::spec_default(),
            final(self).wf(),
    {
        self.pipeline = Pipeline::default();
        self.submissions = Vec::new();
        proof {
            assert(self@.subs =~= Seq::<SubView>::empty());
        }
    }

    /// The number of recorded submissions.
    pub fn len(&self) -> (r: usize)
        ensures
            r == self@.subs.len(),
    {
        self.submissions.len()
    }

    /// Read access to the recorded submissions, in order.
    pub fn submission(&self, i: usize) -> (r: &Submission)
        requires
            i < self@.subs.len(),
        ensures
            r@ == self@.subs[i as int],
    {
        &self.submissions[i]
    }
}

} // verus!
