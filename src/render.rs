//! The render protocol: the one bind-group layout, the per-frame resources
//! rebuilt from a scene, and the draw calls issued for it.
use vstd::prelude::*;

use crate::model::{mesh_vertices, Mesh, Model};
use crate::vertex::{
    index_buffer_bytes, records_bytes, vertex_buffer_bytes, words_le, VertexData, VERTEX_STRIDE,
};

verus! {

/// What a binding of the layout holds.
#[derive(Clone, Copy, Debug, PartialEq, Eq, Structural)]
pub enum BindingKind {
    /// Read-only storage buffer of per-model transform matrices.
    TransformStorage,
    /// Array of filterable 2-D float textures.
    TextureArray,
    /// One filtering sampler.
    FilteringSampler,
    /// Uniform buffer with the camera's view-projection matrix.
    CameraUniform,
}

/// Shader stages a binding is visible to.
#[derive(Clone, Copy, Debug, PartialEq, Eq, Structural)]
pub enum Visibility {
    Vertex,
    VertexFragment,
}

/// One entry of the bind-group layout.
#[derive(Clone, Copy, Debug, PartialEq, Eq, Structural)]
pub struct BindingSlot {
    pub binding: u32,
    pub kind: BindingKind,
    pub visibility: Visibility,
    /// Element count of an array binding; `None` for a single resource.
    pub count: Option<u32>,
}

/// The layout: transforms, textures, sampler, camera, at bindings 0 to 3.
pub open spec fn layout_spec(textures_count: u32) -> Seq<BindingSlot> {
    seq![
        BindingSlot {
            binding: 0,
            kind: BindingKind::TransformStorage,
            visibility: Visibility::Vertex,
            count: None,
        },
        BindingSlot {
            binding: 1,
            kind: BindingKind::TextureArray,
            visibility: Visibility::VertexFragment,
            count: Some(textures_count),
        },
        BindingSlot {
            binding: 2,
            kind: BindingKind::FilteringSampler,
            visibility: Visibility::VertexFragment,
            count: None,
        },
        BindingSlot {
            binding: 3,
            kind: BindingKind::CameraUniform,
            visibility: Visibility::Vertex,
            count: None,
        },
    ]
}

/// The bind-group layout shared by the pipeline and every frame's bind
/// group; the texture array holds `textures_count` textures, fixed for the
/// life of the pipeline.
pub fn bind_group_layout(textures_count: usize) -> (r: Vec<BindingSlot>)
    requires
        0 < textures_count <= u32::MAX,
    ensures
        r@ == layout_spec(textures_count as u32),
{
    let n = textures_count as u32;
    let r = vec![
        BindingSlot {
            binding: 0,
            kind: BindingKind::TransformStorage,
            visibility: Visibility::Vertex,
            count: None,
        },
        BindingSlot {
            binding: 1,
            kind: BindingKind::TextureArray,
            visibility: Visibility::VertexFragment,
            count: Some(n),
        },
        BindingSlot {
            binding: 2,
            kind: BindingKind::FilteringSampler,
            visibility: Visibility::VertexFragment,
            count: None,
        },
        BindingSlot {
            binding: 3,
            kind: BindingKind::CameraUniform,
            visibility: Visibility::Vertex,
            count: None,
        },
    ];
    assert(r@ =~= layout_spec(n));
    r
}

/// One indexed draw: the mesh it draws and the number of indices, with one
/// instance.
#[derive(Clone, Copy, Debug, PartialEq, Eq, Structural)]
pub struct DrawCall {
    pub model_idx: usize,
    pub mesh_idx: usize,
    pub index_count: u32,
}

/// The draws of the meshes of model `model_idx`, in mesh order.
pub open spec fn mesh_draws(model_idx: int, meshes: Seq<Mesh>) -> Seq<DrawCall> {
    Seq::new(
        meshes.len(),
        |j: int|
            (DrawCall {
                model_idx: model_idx as usize,
                mesh_idx: j as usize,
                index_count: meshes[j].indices@.len() as u32,
            }),
    )
}

/// The draws of all models: model order, then mesh order.
pub open spec fn draws_of(models: Seq<Model>) -> Seq<DrawCall>
    decreases models.len(),
{
    if models.len() == 0 {
        seq![]
    } else {
        draws_of(models.drop_last()) + mesh_draws(models.len() - 1, models.last().meshes@)
    }
}

/// Every mesh's index count fits a draw call.
pub open spec fn index_counts_fit(models: Seq<Model>) -> bool {
    forall|i: int, j: int|
        0 <= i < models.len() && 0 <= j < models[i].meshes@.len() ==> (
        #[trigger] models[i].meshes@[j]).indices@.len() <= u32::MAX
}

/// Number of meshes over all models.
pub open spec fn mesh_total(models: Seq<Model>) -> nat
    decreases models.len(),
{
    if models.len() == 0 {
        0
    } else {
        mesh_total(models.drop_last()) + models.last().meshes@.len()
    }
}

/// The draw calls of one frame: one per mesh, covering all its indices, in
/// model order and within a model in mesh order.
pub fn draw_calls(models: &Vec<Model>) -> (r: Vec<DrawCall>)
    requires
        index_counts_fit(models@),
    ensures
        r@ == draws_of(models@),
{
    let mut r: Vec<DrawCall> = Vec::new();
    let mut i: usize = 0;
    while i < models.len()
        invariant
            i <= models@.len(),
            index_counts_fit(models@),
            r@ == draws_of(models@.subrange(0, i as int)),
        decreases models@.len() - i,
    {
        let ghost before = r@;
        let meshes = &models[i].meshes;
        let mut j: usize = 0;
        while j < meshes.len()
            invariant
                i < models@.len(),
                j <= meshes@.len(),
                meshes@ == models@[i as int].meshes@,
                index_counts_fit(models@),
                r@ == before + mesh_draws(i as int, meshes@).subrange(0, j as int),
            decreases meshes@.len() - j,
        {
            assert(models@[i as int].meshes@[j as int].indices@.len() <= u32::MAX);
            let count = meshes[j].indices.len() as u32;
            r.push(DrawCall { model_idx: i, mesh_idx: j, index_count: count });
            j = j + 1;
            assert(r@ =~= before + mesh_draws(i as int, meshes@).subrange(0, j as int));
        }
        assert(mesh_draws(i as int, meshes@).subrange(0, j as int) =~= mesh_draws(
            i as int,
            meshes@,
        ));
        assert(models@.subrange(0, i + 1).drop_last() =~= models@.subrange(0, i as int));
        i = i + 1;
    }
    assert(models@.subrange(0, models@.len() as int) =~= models@);
    r
}

/// The GPU buffers of one mesh for one frame.
#[derive(Clone, Debug)]
pub struct MeshBuffers {
    /// The mesh's vertex records.
    pub vertices: Vec<VertexData>,
    /// Contents of its vertex buffer.
    pub vertex_bytes: Vec<u8>,
    /// Contents of its index buffer.
    pub index_bytes: Vec<u8>,
}

/// The transient resources of one frame.
#[derive(Clone, Debug)]
pub struct FrameResources {
    /// Per model, per mesh, in scene order.
    pub buffers: Vec<Vec<MeshBuffers>>,
    /// Width and height of the frame's depth texture.
    pub depth_size: [u32; 2],
}

/// Every vertex and index buffer of the scene fits in memory.
pub open spec fn buffers_fit(models: Seq<Model>) -> bool {
    &&& models.len() <= u32::MAX + 1
    &&& forall|i: int, j: int|
        0 <= i < models.len() && 0 <= j < models[i].meshes@.len() ==> {
            &&& VERTEX_STRIDE * (#[trigger] models[i].meshes@[j]).positions@.len() <= usize::MAX
            &&& 4 * models[i].meshes@[j].indices@.len() <= usize::MAX
        }
}

/// `b` are the buffers of mesh `m` of the model at `model_idx`.
pub open spec fn mesh_buffers_of<F: Fn(u32) -> u32>(
    m: Mesh,
    model_idx: int,
    flip_v: F,
    b: MeshBuffers,
) -> bool {
    &&& mesh_vertices(m, model_idx as u32, flip_v, b.vertices@)
    &&& b.vertex_bytes@ == records_bytes(b.vertices@)
    &&& b.index_bytes@ == words_le(m.indices@)
}

/// `r` are the resources of a frame of `models` drawn at `surface_size`.
pub open spec fn frame_of<F: Fn(u32) -> u32>(
    surface_size: [u32; 2],
    models: Seq<Model>,
    flip_v: F,
    r: FrameResources,
) -> bool {
    &&& r.depth_size == surface_size
    &&& r.buffers@.len() == models.len()
    &&& forall|i: int|
        0 <= i < models.len() ==> (#[trigger] r.buffers@[i])@.len() == models[i].meshes@.len()
    &&& forall|i: int, j: int|
        0 <= i < models.len() && 0 <= j < models[i].meshes@.len() ==> mesh_buffers_of(
            models[i].meshes@[j],
            i,
            flip_v,
            #[trigger] r.buffers@[i]@[j],
        )
}

/// Builds a frame's transient resources from the scene's models: for each
/// mesh of each model, its vertex records tagged with the model's index and
/// the contents of its vertex and index buffers; and a depth texture of the
/// surface's size. Nothing is kept from an earlier frame.
pub fn create_resources<F: Fn(u32) -> u32>(
    surface_size: [u32; 2],
    models: &Vec<Model>,
    flip_v: &F,
) -> (r: FrameResources)
    requires
        buffers_fit(models@),
        forall|x: u32| call_requires(*flip_v, (x,)),
    ensures
        frame_of(surface_size, models@, *flip_v, r),
{
    let mut buffers: Vec<Vec<MeshBuffers>> = Vec::new();
    let mut i: usize = 0;
    while i < models.len()
        invariant
            i <= models@.len(),
            buffers_fit(models@),
            forall|x: u32| call_requires(*flip_v, (x,)),
            buffers@.len() == i,
            forall|a: int|
                0 <= a < i ==> (#[trigger] buffers@[a])@.len() == models@[a].meshes@.len(),
            forall|a: int, j: int|
                0 <= a < i && 0 <= j < models@[a].meshes@.len() ==> mesh_buffers_of(
                    models@[a].meshes@[j],
                    a,
                    *flip_v,
                    #[trigger] buffers@[a]@[j],
                ),
        decreases models@.len() - i,
    {
        let meshes = &models[i].meshes;
        let mut row: Vec<MeshBuffers> = Vec::new();
        let mut j: usize = 0;
        while j < meshes.len()
            invariant
                i < models@.len(),
                i <= u32::MAX,
                j <= meshes@.len(),
                meshes@ == models@[i as int].meshes@,
                buffers_fit(models@),
                forall|x: u32| call_requires(*flip_v, (x,)),
                row@.len() == j,
                forall|b: int|
                    0 <= b < j ==> mesh_buffers_of(meshes@[b], i as int, *flip_v, #[trigger] row@[b]),
            decreases meshes@.len() - j,
        {
            let mesh = &meshes[j];
            assert(VERTEX_STRIDE * models@[i as int].meshes@[j as int].positions@.len() <= usize::MAX);
            assert(4 * models@[i as int].meshes@[j as int].indices@.len() <= usize::MAX);
            let vertices = mesh.vertex_data(i as u32, flip_v);
            assert(VERTEX_STRIDE * vertices@.len() <= usize::MAX) by (nonlinear_arith)
                requires
                    vertices@.len() <= mesh.positions@.len(),
                    VERTEX_STRIDE * mesh.positions@.len() <= usize::MAX,
            ;
            let vertex_bytes = vertex_buffer_bytes(&vertices);
            let index_bytes = index_buffer_bytes(&mesh.indices);
            row.push(MeshBuffers { vertices, vertex_bytes, index_bytes });
            j = j + 1;
        }
        buffers.push(row);
        i = i + 1;
    }
    FrameResources { buffers, depth_size: surface_size }
}

/// One draw per mesh, no more: the draw of mesh `j` of model `i` comes after
/// the draws of all meshes of earlier models, and covers all its indices.
pub proof fn lemma_one_draw_per_mesh(models: Seq<Model>)
    ensures
        draws_of(models).len() == mesh_total(models),
        forall|i: int, j: int|
            0 <= i < models.len() && 0 <= j < models[i].meshes@.len() ==> draws_of(models)[mesh_total(
                models.subrange(0, i),
            ) + j] == (DrawCall {
                model_idx: i as usize,
                mesh_idx: j as usize,
                index_count: (#[trigger] models[i].meshes@[j]).indices@.len() as u32,
            }),
    decreases models.len(),
{
    if models.len() > 0 {
        let rest = models.drop_last();
        let n = models.len() - 1;
        lemma_one_draw_per_mesh(rest);
        assert(models.subrange(0, n) =~= rest);
        assert forall|i: int, j: int|
            0 <= i < models.len() && 0 <= j < models[i].meshes@.len() implies draws_of(
            models,
        )[mesh_total(models.subrange(0, i)) + j] == (DrawCall {
            model_idx: i as usize,
            mesh_idx: j as usize,
            index_count: (#[trigger] models[i].meshes@[j]).indices@.len() as u32,
        }) by {
            if i < n {
                assert(models.subrange(0, i) =~= rest.subrange(0, i));
                assert(rest[i] == models[i]);
                lemma_mesh_total_prefix(rest, i);
            }
        }
    }
}

proof fn lemma_mesh_total_prefix(models: Seq<Model>, i: int)
    requires
        0 <= i < models.len(),
    ensures
        mesh_total(models.subrange(0, i)) + models[i].meshes@.len() <= mesh_total(models),
    decreases models.len(),
{
    if i < models.len() - 1 {
        let rest = models.drop_last();
        assert(rest.subrange(0, i) =~= models.subrange(0, i));
        lemma_mesh_total_prefix(rest, i);
    } else {
        assert(models.subrange(0, i) =~= models.drop_last());
    }
}

/// Each frame's depth texture has that frame's surface size: after a resize,
/// the next frame's depth texture follows the new size and differs from the
/// previous frame's.
pub proof fn lemma_depth_follows_surface<F: Fn(u32) -> u32>(
    size1: [u32; 2],
    size2: [u32; 2],
    models: Seq<Model>,
    flip_v: F,
    frame1: FrameResources,
    frame2: FrameResources,
)
    requires
        frame_of(size1, models, flip_v, frame1),
        frame_of(size2, models, flip_v, frame2),
    ensures
        frame1.depth_size == size1,
        frame2.depth_size == size2,
        size1 != size2 ==> frame1.depth_size != frame2.depth_size,
{
}

} // verus!
