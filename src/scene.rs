use vstd::prelude::*;
use crate::material::AiMaterial;
use crate::mesh::AiMesh;

verus! {

/// Every mesh follows the mesh layout rules and names a material of the scene.
pub open spec fn meshes_ok<V, C>(meshes: Seq<AiMesh<V, C>>, num_materials: nat) -> bool {
    forall|i: int| 0 <= i < meshes.len() ==> {
        &&& (#[trigger] meshes[i]).wf()
        &&& meshes[i].material_index < num_materials
    }
}

/// Every material follows the material rules.
pub open spec fn materials_ok<C>(materials: Seq<AiMaterial<C>>) -> bool {
    forall|i: int| 0 <= i < materials.len() ==> (#[trigger] materials[i]).wf()
}

/// The name of each material as text, the empty text where it has none.
pub open spec fn material_name_seq<C>(materials: Seq<AiMaterial<C>>) -> Seq<Seq<char>> {
    materials.map_values(
        |m: AiMaterial<C>|
            match m.name_text() {
                Some(t) => t,
                None => Seq::<char>::empty(),
            },
    )
}

/// The root of an imported scene: its processing flags, and its meshes and
/// materials with their counts. `V` is the type of a vector, `C` that of a
/// color.
pub struct Scene<V, C> {
    flags: u32,
    num_meshes: u32,
    meshes: Vec<AiMesh<V, C>>,
    num_materials: u32,
    materials: Vec<AiMaterial<C>>,
}

impl<V, C> Scene<V, C> {
    pub closed spec fn flags_spec(&self) -> u32 {
        self.flags
    }

    pub closed spec fn mesh_count(&self) -> nat {
        self.num_meshes as nat
    }

    pub closed spec fn material_count(&self) -> nat {
        self.num_materials as nat
    }

    pub closed spec fn mesh_seq(&self) -> Seq<AiMesh<V, C>> {
        self.meshes@
    }

    pub closed spec fn material_seq(&self) -> Seq<AiMaterial<C>> {
        self.materials@
    }

    /// The counts agree with the arrays, and every mesh and material follows
    /// its rules.
    pub closed spec fn wf(&self) -> bool {
        &&& self.meshes@.len() == self.num_meshes
        &&& self.materials@.len() == self.num_materials
        &&& meshes_ok(self.meshes@, self.num_materials as nat)
        &&& materials_ok(self.materials@)
    }

    /// Wraps the parts of an imported scene; `None` where a count disagrees
    /// with its array or a mesh or material breaks its rules.
    pub fn from_parts(
        flags: u32,
        num_meshes: u32,
        meshes: Vec<AiMesh<V, C>>,
        num_materials: u32,
        materials: Vec<AiMaterial<C>>,
    ) -> (r: Option<Scene<V, C>>)
        ensures
            r is Some <==> (meshes@.len() == num_meshes && materials@.len() == num_materials
                && meshes_ok(meshes@, num_materials as nat) && materials_ok(materials@)),
            r matches Some(s) ==> {
                &&& s.wf()
                &&& s.flags_spec() == flags
                &&& s.mesh_count() == num_meshes
                &&& s.material_count() == num_materials
                &&& s.mesh_seq() == meshes@
                &&& s.material_seq() == materials@
            },
    {
        if meshes.len() != num_meshes as usize || materials.len() != num_materials as usize {
            return None;
        }
        let mut i: usize = 0;
        while i < meshes.len()
            invariant
                i <= meshes@.len(),
                meshes_ok(meshes@.subrange(0, i as int), num_materials as nat),
            decreases meshes@.len() - i,
        {
            if !meshes[i].is_well_formed() || meshes[i].material_index >= num_materials {
                assert(!meshes_ok(meshes@, num_materials as nat)) by {
                    assert(!(meshes@[i as int].wf() && meshes@[i as int].material_index
                        < num_materials));
                }
                return None;
            }
            i = i + 1;
            assert forall|k: int| 0 <= k < i implies {
                &&& (#[trigger] meshes@.subrange(0, i as int)[k]).wf()
                &&& meshes@.subrange(0, i as int)[k].material_index < num_materials
            } by {
                if k < i - 1 {
                    assert(meshes@.subrange(0, i as int)[k] == meshes@.subrange(0, i - 1)[k]);
                }
            }
        }
        assert(meshes@.subrange(0, meshes@.len() as int) =~= meshes@);
        let mut j: usize = 0;
        while j < materials.len()
            invariant
                j <= materials@.len(),
                forall|k: int| 0 <= k < j ==> (#[trigger] materials@[k]).wf(),
            decreases materials@.len() - j,
        {
            if !materials[j].is_well_formed() {
                return None;
            }
            j = j + 1;
        }
        Some(Scene { flags, num_meshes, meshes, num_materials, materials })
    }

    /// The importer's processing flags for this scene.
    pub fn flags(&self) -> (r: u32)
        ensures
            r == self.flags_spec(),
    {
        self.flags
    }

    /// The number of meshes, as the scene records it.
    pub fn num_meshes(&self) -> (r: usize)
        requires
            self.wf(),
        ensures
            r == self.mesh_count(),
            r == self.mesh_seq().len(),
    {
        self.num_meshes as usize
    }

    /// Every mesh of the scene, in order. Each follows the mesh rules and
    /// names a material of the scene.
    pub fn meshes(&self) -> (r: &[AiMesh<V, C>])
        requires
            self.wf(),
        ensures
            r@ == self.mesh_seq(),
            r@.len() == self.mesh_count(),
            meshes_ok(r@, self.material_count()),
    {
        self.meshes.as_slice()
    }

    /// The number of materials, as the scene records it.
    pub fn num_materials(&self) -> (r: usize)
        requires
            self.wf(),
        ensures
            r == self.material_count(),
            r == self.material_seq().len(),
    {
        self.num_materials as usize
    }

    /// Every material of the scene, in order. Each follows the material rules.
    pub fn materials(&self) -> (r: &[AiMaterial<C>])
        requires
            self.wf(),
        ensures
            r@ == self.material_seq(),
            r@.len() == self.material_count(),
            materials_ok(r@),
    {
        self.materials.as_slice()
    }

    /// The name of every material, in order; the empty string for a material
    /// without one.
    pub fn material_names(&self) -> (r: Vec<String>)
        requires
            self.wf(),
        ensures
            r@.map_values(|s: String| s@) == material_name_seq(self.material_seq()),
    {
        let mut r: Vec<String> = Vec::new();
        let mut i: usize = 0;
        while i < self.materials.len()
            invariant
                self.wf(),
                i <= self.materials@.len(),
                r@.len() == i,
                forall|k: int| 0 <= k < i ==> (#[trigger] r@[k])@ == material_name_seq(
                    self.materials@,
                )[k],
            decreases self.materials@.len() - i,
        {
            let name = self.materials[i].name_or_empty();
            r.push(name);
            i = i + 1;
        }
        assert(r@.map_values(|s: String| s@) =~= material_name_seq(self.materials@));
        r
    }
}

/// In a well-formed scene the recorded counts equal the lengths of the
/// mesh and material sequences.
pub proof fn lemma_counts_match<V, C>(s: Scene<V, C>)
    requires
        s.wf(),
    ensures
        s.mesh_count() == s.mesh_seq().len(),
        s.material_count() == s.material_seq().len(),
{
}

/// The sequences a scene hands out depend on the scene alone: two calls of
/// `meshes`, `materials` or `material_names` give the same elements in the
/// same order.
pub proof fn lemma_sequences_restartable<V, C>(
    s: Scene<V, C>,
    meshes_a: Seq<AiMesh<V, C>>,
    meshes_b: Seq<AiMesh<V, C>>,
    materials_a: Seq<AiMaterial<C>>,
    materials_b: Seq<AiMaterial<C>>,
    names_a: Seq<Seq<char>>,
    names_b: Seq<Seq<char>>,
)
    requires
        meshes_a == s.mesh_seq(),
        meshes_b == s.mesh_seq(),
        materials_a == s.material_seq(),
        materials_b == s.material_seq(),
        names_a == material_name_seq(s.material_seq()),
        names_b == material_name_seq(s.material_seq()),
    ensures
        meshes_a == meshes_b,
        materials_a == materials_b,
        names_a == names_b,
        names_a.len() == materials_a.len(),
{
}

} // verus!
