use vstd::prelude::*;
use crate::flags::AiPrimitiveType;
use crate::text::{AiString, utf8_text};

verus! {

/// Number of vertex-color channels of a mesh.
pub const AI_MAX_NUMBER_OF_COLOR_SETS: usize = 8;
/// Number of texture-coordinate channels of a mesh.
pub const AI_MAX_NUMBER_OF_TEXTURECOORDS: usize = 8;

/// One face: the indices of its corners in the mesh's vertex arrays.
pub struct AiFace {
    pub indices: Vec<u32>,
}

impl AiFace {
    pub fn num_indices(&self) -> (r: usize)
        ensures
            r == self.indices@.len(),
    {
        self.indices.len()
    }
}

/// An attribute array is either absent or holds one element per vertex.
pub open spec fn attribute_ok<T>(a: Option<Vec<T>>, n: nat) -> bool {
    a matches Some(v) ==> v@.len() == n
}

/// Every index of every face refers to a vertex.
pub open spec fn faces_in_range(faces: Seq<AiFace>, n: nat) -> bool {
    forall|i: int, j: int|
        0 <= i < faces.len() && 0 <= j < faces[i].indices@.len() ==> faces[i].indices@[j] < n
}

/// The corner triple of a face with three indices.
pub open spec fn face_triple(f: AiFace) -> (u32, u32, u32) {
    (f.indices@[0], f.indices@[1], f.indices@[2])
}

/// One drawable surface: vertex attributes, faces, a material and a name.
/// `V` is the type of a vector, `C` that of a color.
pub struct AiMesh<V, C> {
    pub primitive_types: AiPrimitiveType,
    pub num_vertices: u32,
    pub vertices: Option<Vec<V>>,
    pub normals: Option<Vec<V>>,
    pub tangents: Option<Vec<V>>,
    pub bitangents: Option<Vec<V>>,
    pub colors: Vec<Option<Vec<C>>>,
    pub texture_coords: Vec<Option<Vec<V>>>,
    pub num_uv_components: Vec<u32>,
    pub faces: Vec<AiFace>,
    pub material_index: u32,
    pub name: AiString,
}

impl<V, C> AiMesh<V, C> {
    /// The layout rules of a mesh: each present attribute array has one
    /// element per vertex, the channel tables have their fixed size, and
    /// every face index refers to a vertex.
    pub open spec fn wf(&self) -> bool {
        let n = self.num_vertices as nat;
        &&& self.primitive_types.wf()
        &&& attribute_ok(self.vertices, n)
        &&& attribute_ok(self.normals, n)
        &&& attribute_ok(self.tangents, n)
        &&& attribute_ok(self.bitangents, n)
        &&& self.colors@.len() == AI_MAX_NUMBER_OF_COLOR_SETS
        &&& self.texture_coords@.len() == AI_MAX_NUMBER_OF_TEXTURECOORDS
        &&& self.num_uv_components@.len() == AI_MAX_NUMBER_OF_TEXTURECOORDS
        &&& forall|c: int| 0 <= c < self.colors@.len() ==> attribute_ok(#[trigger] self.colors@[c], n)
        &&& forall|c: int| 0 <= c < self.texture_coords@.len()
            ==> attribute_ok(#[trigger] self.texture_coords@[c], n)
        &&& faces_in_range(self.faces@, n)
        &&& self.name.wf()
    }

    /// Every face has exactly three corners.
    pub open spec fn is_triangulated_spec(&self) -> bool {
        forall|i: int| 0 <= i < self.faces@.len() ==> (#[trigger] self.faces@[i]).indices@.len() == 3
    }

    /// The triangles of a triangulated mesh, one per face, in face order.
    pub open spec fn triangle_seq(&self) -> Seq<(u32, u32, u32)> {
        self.faces@.map_values(|f: AiFace| face_triple(f))
    }

    /// Checks every layout rule of `wf`.
    pub fn is_well_formed(&self) -> (r: bool)
        ensures
            r == self.wf(),
    {
        let n = self.num_vertices as usize;
        if !self.primitive_types.is_valid() || !attribute_fits(&self.vertices, n)
            || !attribute_fits(&self.normals, n) || !attribute_fits(&self.tangents, n)
            || !attribute_fits(&self.bitangents, n)
            || self.colors.len() != AI_MAX_NUMBER_OF_COLOR_SETS
            || self.texture_coords.len() != AI_MAX_NUMBER_OF_TEXTURECOORDS
            || self.num_uv_components.len() != AI_MAX_NUMBER_OF_TEXTURECOORDS
            || !self.name.is_well_formed() {
            return false;
        }
        let mut c: usize = 0;
        while c < AI_MAX_NUMBER_OF_COLOR_SETS
            invariant
                n == self.num_vertices,
                self.colors@.len() == AI_MAX_NUMBER_OF_COLOR_SETS,
                self.texture_coords@.len() == AI_MAX_NUMBER_OF_TEXTURECOORDS,
                c <= AI_MAX_NUMBER_OF_COLOR_SETS,
                forall|k: int| 0 <= k < c ==> attribute_ok(#[trigger] self.colors@[k], n as nat),
                forall|k: int| 0 <= k < c ==> attribute_ok(#[trigger] self.texture_coords@[k], n as nat),
            decreases AI_MAX_NUMBER_OF_COLOR_SETS - c,
        {
            if !attribute_fits(&self.colors[c], n) || !attribute_fits(&self.texture_coords[c], n) {
                return false;
            }
            c = c + 1;
        }
        let mut i: usize = 0;
        while i < self.faces.len()
            invariant
                n == self.num_vertices,
                i <= self.faces@.len(),
                faces_in_range(self.faces@.subrange(0, i as int), n as nat),
            decreases self.faces@.len() - i,
        {
            let f = &self.faces[i];
            let mut j: usize = 0;
            while j < f.indices.len()
                invariant
                    n == self.num_vertices,
                    i < self.faces@.len(),
                    *f == self.faces@[i as int],
                    j <= f.indices@.len(),
                    forall|k: int| 0 <= k < j ==> f.indices@[k] < n,
                decreases f.indices@.len() - j,
            {
                if f.indices[j] as usize >= n {
                    assert(!faces_in_range(self.faces@, n as nat)) by {
                        assert(self.faces@[i as int].indices@[j as int] >= n);
                    }
                    return false;
                }
                j = j + 1;
            }
            i = i + 1;
            assert forall|a: int, b: int|
                0 <= a < self.faces@.subrange(0, i as int).len()
                    && 0 <= b < self.faces@.subrange(0, i as int)[a].indices@.len()
                implies self.faces@.subrange(0, i as int)[a].indices@[b] < n by {
                if a < i - 1 {
                    assert(self.faces@.subrange(0, i - 1)[a] == self.faces@[a]);
                }
            }
        }
        assert(self.faces@.subrange(0, self.faces@.len() as int) =~= self.faces@);
        true
    }

    /// Whether every face has exactly three corners.
    pub fn is_triangulated(&self) -> (r: bool)
        ensures
            r == self.is_triangulated_spec(),
    {
        let mut i: usize = 0;
        while i < self.faces.len()
            invariant
                i <= self.faces@.len(),
                forall|k: int| 0 <= k < i ==> (#[trigger] self.faces@[k]).indices@.len() == 3,
            decreases self.faces@.len() - i,
        {
            if self.faces[i].indices.len() != 3 {
                return false;
            }
            i = i + 1;
        }
        true
    }

    /// The mesh's name as text.
    pub fn name(&self) -> (r: String)
        requires
            self.wf(),
            self.name.is_text_spec(),
        ensures
            r@ == utf8_text(self.name@),
    {
        self.name.as_text()
    }

    /// The vertex positions, one per vertex.
    pub fn verts(&self) -> (r: &[V])
        requires
            self.wf(),
            self.vertices is Some,
        ensures
            r@ == self.vertices.unwrap()@,
            r@.len() == self.num_vertices,
    {
        attribute_slice(&self.vertices)
    }

    /// The vertex normals, one per vertex.
    pub fn normals(&self) -> (r: &[V])
        requires
            self.wf(),
            self.normals is Some,
        ensures
            r@ == self.normals.unwrap()@,
            r@.len() == self.num_vertices,
    {
        attribute_slice(&self.normals)
    }

    /// The vertex tangents, one per vertex.
    pub fn tangents(&self) -> (r: &[V])
        requires
            self.wf(),
            self.tangents is Some,
        ensures
            r@ == self.tangents.unwrap()@,
            r@.len() == self.num_vertices,
    {
        attribute_slice(&self.tangents)
    }

    /// The vertex bitangents, one per vertex.
    pub fn binormals(&self) -> (r: &[V])
        requires
            self.wf(),
            self.bitangents is Some,
        ensures
            r@ == self.bitangents.unwrap()@,
            r@.len() == self.num_vertices,
    {
        attribute_slice(&self.bitangents)
    }

    /// The texture coordinates of a channel; `None` for a channel out of
    /// range or one the mesh does not have.
    pub fn texcoords(&self, index: usize) -> (r: Option<&[V]>)
        requires
            self.wf(),
        ensures
            r is Some <==> (index < AI_MAX_NUMBER_OF_TEXTURECOORDS
                && self.texture_coords@[index as int] is Some),
            r matches Some(s) ==> s@ == self.texture_coords@[index as int].unwrap()@
                && s@.len() == self.num_vertices,
    {
        if index < AI_MAX_NUMBER_OF_TEXTURECOORDS {
            match &self.texture_coords[index] {
                Some(v) => {
                    assert(attribute_ok(self.texture_coords@[index as int], self.num_vertices as nat));
                    Some(v.as_slice())
                },
                None => None,
            }
        } else {
            None
        }
    }

    /// The vertex colors of a channel; `None` for a channel out of range or
    /// one the mesh does not have.
    pub fn colors(&self, index: usize) -> (r: Option<&[C]>)
        requires
            self.wf(),
        ensures
            r is Some <==> (index < AI_MAX_NUMBER_OF_COLOR_SETS
                && self.colors@[index as int] is Some),
            r matches Some(s) ==> s@ == self.colors@[index as int].unwrap()@
                && s@.len() == self.num_vertices,
    {
        if index < AI_MAX_NUMBER_OF_COLOR_SETS {
            match &self.colors[index] {
                Some(v) => {
                    assert(attribute_ok(self.colors@[index as int], self.num_vertices as nat));
                    Some(v.as_slice())
                },
                None => None,
            }
        } else {
            None
        }
    }

    /// The corner triple of every face, in face order. Each index refers to
    /// a vertex.
    pub fn triangles(&self) -> (r: Vec<(u32, u32, u32)>)
        requires
            self.wf(),
            self.is_triangulated_spec(),
        ensures
            r@ == self.triangle_seq(),
            r@.len() == self.faces@.len(),
            forall|i: int| 0 <= i < r@.len() ==> {
                &&& (#[trigger] r@[i]).0 < self.num_vertices
                &&& r@[i].1 < self.num_vertices
                &&& r@[i].2 < self.num_vertices
            },
    {
        let mut r: Vec<(u32, u32, u32)> = Vec::new();
        let mut i: usize = 0;
        while i < self.faces.len()
            invariant
                self.wf(),
                self.is_triangulated_spec(),
                i <= self.faces@.len(),
                r@ == self.faces@.subrange(0, i as int).map_values(|f: AiFace| face_triple(f)),
            decreases self.faces@.len() - i,
        {
            let f = &self.faces[i];
            assert(f.indices@.len() == 3);
            r.push((f.indices[0], f.indices[1], f.indices[2]));
            i = i + 1;
            assert(r@ =~= self.faces@.subrange(0, i as int).map_values(|f: AiFace| face_triple(f)));
        }
        assert(self.faces@.subrange(0, self.faces@.len() as int) =~= self.faces@);
        proof {
            assert forall|i: int| 0 <= i < r@.len() implies {
                &&& (#[trigger] r@[i]).0 < self.num_vertices
                &&& r@[i].1 < self.num_vertices
                &&& r@[i].2 < self.num_vertices
            } by {
                assert(self.faces@[i].indices@.len() == 3);
                assert(self.faces@[i].indices@[0] < self.num_vertices);
                assert(self.faces@[i].indices@[1] < self.num_vertices);
                assert(self.faces@[i].indices@[2] < self.num_vertices);
            }
        }
        r
    }
}

/// Whether an attribute array is absent or has `n` elements.
fn attribute_fits<T>(a: &Option<Vec<T>>, n: usize) -> (r: bool)
    ensures
        r == attribute_ok(*a, n as nat),
{
    match a {
        Some(v) => v.len() == n,
        None => true,
    }
}

fn attribute_slice<T>(a: &Option<Vec<T>>) -> (r: &[T])
    requires
        a is Some,
    ensures
        r@ == a.unwrap()@,
{
    match a {
        Some(v) => v.as_slice(),
        None => {
            assert(false);
            &[]
        },
    }
}

/// The triangles of a mesh are a function of the mesh alone: two calls of
/// `triangles` give the same triples in the same order.
pub proof fn lemma_triangles_restartable<V, C>(
    m: AiMesh<V, C>,
    first: Seq<(u32, u32, u32)>,
    second: Seq<(u32, u32, u32)>,
)
    requires
        first == m.triangle_seq(),
        second == m.triangle_seq(),
    ensures
        first == second,
        first.len() == m.faces@.len(),
{
}

} // verus!
