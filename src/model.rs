//! Meshes, materials and models, and the derivation of per-vertex records
//! from a model's raw mesh arrays.
use vstd::prelude::*;

use crate::vertex::VertexData;

verus! {

/// Triangle geometry as flat arrays: three position words, three normal
/// words and two texture-coordinate words per vertex (single-precision bit
/// patterns), and the triangle indices.
#[derive(Clone, Debug)]
pub struct Mesh {
    pub positions: Vec<u32>,
    pub normals: Vec<u32>,
    pub texcoords: Vec<u32>,
    pub indices: Vec<u32>,
    pub material_id: Option<usize>,
}

/// A material: its name and the file of its diffuse texture, if any.
#[derive(Clone, Debug)]
pub struct Material {
    pub name: String,
    pub diffuse_texture: Option<String>,
}

/// A model: its meshes and materials, and its translation, Euler rotation
/// and scale (single-precision bit patterns).
#[derive(Clone, Debug)]
pub struct Model {
    pub meshes: Vec<Mesh>,
    pub materials: Vec<Material>,
    pub translation: [u32; 3],
    pub rotation: [u32; 3],
    pub scaling: [u32; 3],
}

/// The normal array used for a mesh: its own, or zeros as long as the
/// position array when it has none.
pub open spec fn normals_used(m: Mesh) -> Seq<u32> {
    if m.normals@.len() == 0 {
        Seq::new(m.positions@.len(), |i: int| 0u32)
    } else {
        m.normals@
    }
}

/// Number of whole vertices present in all three arrays.
pub open spec fn vertex_count(m: Mesh) -> nat {
    let p = m.positions@.len() / 3;
    let n = normals_used(m).len() / 3;
    let t = m.texcoords@.len() / 2;
    let pn = if p <= n {
        p
    } else {
        n
    };
    if pn <= t {
        pn
    } else {
        t
    }
}

/// `v` is the record of vertex `i` of `m`, tagged with `model_idx`, its
/// V coordinate being a result of `flip_v` on the raw one.
pub open spec fn vertex_of<F: Fn(u32) -> u32>(
    m: Mesh,
    i: int,
    model_idx: u32,
    flip_v: F,
    v: VertexData,
) -> bool {
    &&& v.position@ == m.positions@.subrange(3 * i, 3 * i + 3)
    &&& v.normal@ == normals_used(m).subrange(3 * i, 3 * i + 3)
    &&& v.uv@[0] == m.texcoords@[2 * i]
    &&& call_ensures(flip_v, (m.texcoords@[2 * i + 1],), v.uv@[1])
    &&& v.model_idx == model_idx
}

/// `vs` are the records of all vertices of `m`, in order.
pub open spec fn mesh_vertices<F: Fn(u32) -> u32>(
    m: Mesh,
    model_idx: u32,
    flip_v: F,
    vs: Seq<VertexData>,
) -> bool {
    &&& vs.len() == vertex_count(m)
    &&& forall|i: int| 0 <= i < vs.len() ==> vertex_of(m, i, model_idx, flip_v, #[trigger] vs[i])
}

/// `r` holds, per mesh of `model` and in mesh order, the records of its vertices.
pub open spec fn model_vertices<F: Fn(u32) -> u32>(
    model: Model,
    model_idx: u32,
    flip_v: F,
    r: Seq<Seq<VertexData>>,
) -> bool {
    &&& r.len() == model.meshes@.len()
    &&& forall|k: int|
        0 <= k < r.len() ==> mesh_vertices(model.meshes@[k], model_idx, flip_v, #[trigger] r[k])
}

/// `flip_v` gives one result per argument.
pub open spec fn deterministic<F: Fn(u32) -> u32>(flip_v: F) -> bool {
    forall|x: u32, a: u32, b: u32|
        call_ensures(flip_v, (x,), a) && call_ensures(flip_v, (x,), b) ==> a == b
}

impl Mesh {
    /// Zips positions, normals (zeros when absent) and texture coordinates
    /// into records tagged with `model_idx`; the V coordinate of each record is
    /// `flip_v` of the raw one.
    pub fn vertex_data<F: Fn(u32) -> u32>(&self, model_idx: u32, flip_v: &F) -> (r: Vec<VertexData>)
        requires
            forall|x: u32| call_requires(*flip_v, (x,)),
        ensures
            mesh_vertices(*self, model_idx, *flip_v, r@),
    {
        let np = self.positions.len() / 3;
        let nn = if self.normals.len() == 0 {
            np
        } else {
            self.normals.len() / 3
        };
        let nt = self.texcoords.len() / 2;
        let mut n = if np <= nn {
            np
        } else {
            nn
        };
        if nt < n {
            n = nt;
        }
        assert(n == vertex_count(*self));
        let no_normals = self.normals.len() == 0;
        let mut r: Vec<VertexData> = Vec::new();
        let mut i: usize = 0;
        while i < n
            invariant
                n == vertex_count(*self),
                no_normals == (self.normals@.len() == 0),
                i <= n,
                r@.len() == i,
                forall|x: u32| call_requires(*flip_v, (x,)),
                forall|k: int| 0 <= k < i ==> vertex_of(*self, k, model_idx, *flip_v, #[trigger] r@[k]),
            decreases n - i,
        {
            let plen = self.positions.len();
            let nlen = self.normals.len();
            assert(3 * i + 3 <= plen);
            assert(2 * i + 2 <= self.texcoords@.len());
            let p = 3 * i;
            let t = 2 * i;
            let normal: [u32; 3] = if no_normals {
                [0, 0, 0]
            } else {
                assert(3 * i + 3 <= nlen);
                [self.normals[p], self.normals[p + 1], self.normals[p + 2]]
            };
            let v_flipped = flip_v(self.texcoords[t + 1]);
            let v = VertexData {
                position: [self.positions[p], self.positions[p + 1], self.positions[p + 2]],
                normal,
                uv: [self.texcoords[t], v_flipped],
                model_idx,
            };
            assert(v.position@ =~= self.positions@.subrange(3 * i, 3 * i + 3));
            assert(v.normal@ =~= normals_used(*self).subrange(3 * i, 3 * i + 3));
            r.push(v);
            i = i + 1;
        }
        r
    }
}

impl Model {
    /// A model made of loaded meshes and materials, placed by an initial
    /// translation, rotation and scale.
    pub fn new(
        meshes: Vec<Mesh>,
        materials: Vec<Material>,
        transform: ([u32; 3], [u32; 3], [u32; 3]),
    ) -> (r: Model)
        ensures
            r.meshes@ == meshes@,
            r.materials@ == materials@,
            r.translation == transform.0,
            r.rotation == transform.1,
            r.scaling == transform.2,
    {
        let (translation, rotation, scaling) = transform;
        Model { meshes, materials, translation, rotation, scaling }
    }

    /// Per mesh, in mesh order, the vertex records of that mesh tagged with
    /// `model_idx` (see `Mesh::vertex_data`).
    pub fn vertex_data<F: Fn(u32) -> u32>(&self, model_idx: usize, flip_v: &F) -> (r: Vec<
        Vec<VertexData>,
    >)
        requires
            model_idx <= u32::MAX,
            forall|x: u32| call_requires(*flip_v, (x,)),
        ensures
            model_vertices(*self, model_idx as u32, *flip_v, r@.map_values(|vs: Vec<VertexData>| vs@)),
    {
        let mut r: Vec<Vec<VertexData>> = Vec::new();
        let mut k: usize = 0;
        while k < self.meshes.len()
            invariant
                model_idx <= u32::MAX,
                forall|x: u32| call_requires(*flip_v, (x,)),
                k <= self.meshes@.len(),
                r@.len() == k,
                forall|j: int|
                    0 <= j < k ==> mesh_vertices(
                        self.meshes@[j],
                        model_idx as u32,
                        *flip_v,
                        #[trigger] r@[j]@,
                    ),
            decreases self.meshes@.len() - k,
        {
            let vs = self.meshes[k].vertex_data(model_idx as u32, flip_v);
            r.push(vs);
            k = k + 1;
        }
        let ghost rv = r@.map_values(|vs: Vec<VertexData>| vs@);
        assert forall|j: int| 0 <= j < rv.len() implies mesh_vertices(
            self.meshes@[j],
            model_idx as u32,
            *flip_v,
            #[trigger] rv[j],
        ) by {
            assert(rv[j] == r@[j]@);
        }
        r
    }
}

/// Deriving vertex records is a function of the mesh arrays: two derivations
/// from the same model, index and V-flip function give the same records.
pub proof fn lemma_vertex_data_repeatable<F: Fn(u32) -> u32>(
    model: Model,
    model_idx: u32,
    flip_v: F,
    r1: Seq<Seq<VertexData>>,
    r2: Seq<Seq<VertexData>>,
)
    requires
        deterministic(flip_v),
        model_vertices(model, model_idx, flip_v, r1),
        model_vertices(model, model_idx, flip_v, r2),
    ensures
        r1 == r2,
{
    assert forall|k: int| 0 <= k < r1.len() implies #[trigger] r1[k] == r2[k] by {
        let m = model.meshes@[k];
        assert(mesh_vertices(m, model_idx, flip_v, r1[k]));
        assert(mesh_vertices(m, model_idx, flip_v, r2[k]));
        assert forall|i: int| 0 <= i < r1[k].len() implies #[trigger] r1[k][i] == r2[k][i] by {
            let a = r1[k][i];
            let b = r2[k][i];
            assert(vertex_of(m, i, model_idx, flip_v, a));
            assert(vertex_of(m, i, model_idx, flip_v, b));
            assert(a.uv@ =~= b.uv@);
            assert(a.position =~= b.position);
            assert(a.normal =~= b.normal);
            assert(a.uv =~= b.uv);
        }
        assert(r1[k] =~= r2[k]);
    }
    assert(r1 =~= r2);
}

} // verus!
