use vstd::prelude::*;

verus! {

pub const AI_PRIMITIVE_TYPE_POINT: u32 = 0x1;
pub const AI_PRIMITIVE_TYPE_LINE: u32 = 0x2;
pub const AI_PRIMITIVE_TYPE_TRIANGLE: u32 = 0x4;
pub const AI_PRIMITIVE_TYPE_POLYGON: u32 = 0x8;
/// Union of every primitive kind the importer knows.
pub const AI_PRIMITIVE_TYPE_ALL: u32 = 0xF;

pub const AI_PROCESS_CALC_TANGENT_SPACE: u32 = 0x1;
pub const AI_PROCESS_JOIN_IDENTICAL_VERTICES: u32 = 0x2;
pub const AI_PROCESS_MAKE_LEFT_HANDED: u32 = 0x4;
pub const AI_PROCESS_TRIANGULATE: u32 = 0x8;
pub const AI_PROCESS_REMOVE_COMPONENT: u32 = 0x10;
pub const AI_PROCESS_GEN_NORMALS: u32 = 0x20;
pub const AI_PROCESS_GEN_SMOOTH_NORMALS: u32 = 0x40;
pub const AI_PROCESS_SPLIT_LARGE_MESHES: u32 = 0x80;
pub const AI_PROCESS_PRE_TRANSFORM_VERTICES: u32 = 0x100;
pub const AI_PROCESS_LIMIT_BONE_WEIGHTS: u32 = 0x200;
pub const AI_PROCESS_VALIDATE_DATA_STRUCTURE: u32 = 0x400;
pub const AI_PROCESS_IMPROVE_CACHE_LOCALITY: u32 = 0x800;
pub const AI_PROCESS_REMOVE_REDUNDANT_MATERIALS: u32 = 0x1000;
pub const AI_PROCESS_FIX_INFACING_NORMALS: u32 = 0x2000;
pub const AI_PROCESS_POPULATE_ARMATURE_DATA: u32 = 0x4000;
pub const AI_PROCESS_SORT_BY_PTYPE: u32 = 0x8000;
pub const AI_PROCESS_FIND_DEGENERATES: u32 = 0x10000;
pub const AI_PROCESS_FIND_INVALID_DATA: u32 = 0x20000;
pub const AI_PROCESS_GEN_UVCOORDS: u32 = 0x40000;
pub const AI_PROCESS_TRANSFORM_UVCOORDS: u32 = 0x80000;
pub const AI_PROCESS_FIND_INSTANCES: u32 = 0x100000;
pub const AI_PROCESS_OPTIMIZE_MESHES: u32 = 0x200000;
pub const AI_PROCESS_OPTIMIZE_GRAPH: u32 = 0x400000;
pub const AI_PROCESS_FLIP_UVS: u32 = 0x800000;
pub const AI_PROCESS_FLIP_WINDING_ORDER: u32 = 0x1000000;
pub const AI_PROCESS_SPLIT_BY_BONE_COUNT: u32 = 0x2000000;
pub const AI_PROCESS_DEBONE: u32 = 0x4000000;
pub const AI_PROCESS_GLOBAL_SCALE: u32 = 0x8000000;
pub const AI_PROCESS_EMBED_TEXTURES: u32 = 0x10000000;
pub const AI_PROCESS_FORCE_GEN_NORMALS: u32 = 0x20000000;
pub const AI_PROCESS_DROP_NORMALS: u32 = 0x40000000;
pub const AI_PROCESS_GEN_BOUNDING_BOXES: u32 = 0x80000000;

/// Preset for real-time rendering: tangent space, smooth normals, shared
/// vertices, cache locality, bone weight limits, merged materials, split
/// large meshes, triangulation, generated UVs, sorting by primitive type,
/// degenerate and invalid data removal.
pub const AI_PROCESS_PRESET_TARGET_REALTIME_QUALITY: u32 = 0x79ACB;

/// The real-time preset plus instancing, structure validation and mesh
/// optimisation.
pub const AI_PROCESS_PRESET_TARGET_REALTIME_MAX_QUALITY: u32 = 0x379ECB;

/// The steps every import is run with: the maximum-quality real-time preset,
/// with node transforms applied to the vertices.
pub const AI_IMPORT_STEPS: u32 = 0x379FCB;

/// The presets are exactly the unions of the steps they are made of, and the
/// larger one holds every step of the smaller one.
pub proof fn lemma_presets()
    ensures
        AI_PROCESS_PRESET_TARGET_REALTIME_QUALITY == (AI_PROCESS_CALC_TANGENT_SPACE
            | AI_PROCESS_GEN_SMOOTH_NORMALS | AI_PROCESS_JOIN_IDENTICAL_VERTICES
            | AI_PROCESS_IMPROVE_CACHE_LOCALITY | AI_PROCESS_LIMIT_BONE_WEIGHTS
            | AI_PROCESS_REMOVE_REDUNDANT_MATERIALS | AI_PROCESS_SPLIT_LARGE_MESHES
            | AI_PROCESS_TRIANGULATE | AI_PROCESS_GEN_UVCOORDS | AI_PROCESS_SORT_BY_PTYPE
            | AI_PROCESS_FIND_DEGENERATES | AI_PROCESS_FIND_INVALID_DATA),
        AI_PROCESS_PRESET_TARGET_REALTIME_MAX_QUALITY == (
        AI_PROCESS_PRESET_TARGET_REALTIME_QUALITY | AI_PROCESS_FIND_INSTANCES
            | AI_PROCESS_VALIDATE_DATA_STRUCTURE | AI_PROCESS_OPTIMIZE_MESHES),
        AI_IMPORT_STEPS == (AI_PROCESS_PRESET_TARGET_REALTIME_MAX_QUALITY
            | AI_PROCESS_PRE_TRANSFORM_VERTICES),
        AI_PROCESS_PRESET_TARGET_REALTIME_MAX_QUALITY & AI_PROCESS_PRESET_TARGET_REALTIME_QUALITY
            == AI_PROCESS_PRESET_TARGET_REALTIME_QUALITY,
        AI_PROCESS_PRESET_TARGET_REALTIME_MAX_QUALITY != AI_PROCESS_PRESET_TARGET_REALTIME_QUALITY,
        AI_IMPORT_STEPS & AI_PROCESS_TRIANGULATE == AI_PROCESS_TRIANGULATE,
{
    assert(0x79ACBu32 == (0x1u32 | 0x40u32 | 0x2u32 | 0x800u32 | 0x200u32 | 0x1000u32 | 0x80u32
        | 0x8u32 | 0x40000u32 | 0x8000u32 | 0x10000u32 | 0x20000u32)) by (bit_vector);
    assert(0x379ECBu32 == (0x79ACBu32 | 0x100000u32 | 0x400u32 | 0x200000u32)) by (bit_vector);
    assert(0x379FCBu32 == (0x379ECBu32 | 0x100u32)) by (bit_vector);
    assert(0x379ECBu32 & 0x79ACBu32 == 0x79ACBu32) by (bit_vector);
    assert(0x379FCBu32 & 0x8u32 == 0x8u32) by (bit_vector);
}

/// The set of primitive kinds a mesh holds. Only the four known bits may be set.
#[derive(Clone, Copy, Debug, PartialEq, Eq, Structural)]
pub struct AiPrimitiveType {
    pub bits: u32,
}

impl AiPrimitiveType {
    pub open spec fn wf(&self) -> bool {
        self.bits & !AI_PRIMITIVE_TYPE_ALL == 0
    }

    /// Whether only known bits are set.
    pub fn is_valid(&self) -> (r: bool)
        ensures
            r == self.wf(),
    {
        self.bits & !AI_PRIMITIVE_TYPE_ALL == 0
    }

    pub fn empty() -> (r: AiPrimitiveType)
        ensures
            r.bits == 0,
            r.wf(),
    {
        proof {
            assert(0u32 & !0xFu32 == 0) by (bit_vector);
        }
        AiPrimitiveType { bits: 0 }
    }

    /// The set with the given bits, or `None` where a bit outside the known
    /// kinds is set.
    pub fn from_bits(bits: u32) -> (r: Option<AiPrimitiveType>)
        ensures
            r is Some <==> bits & !AI_PRIMITIVE_TYPE_ALL == 0,
            r matches Some(t) ==> t.bits == bits && t.wf(),
    {
        if bits & !AI_PRIMITIVE_TYPE_ALL == 0 {
            Some(AiPrimitiveType { bits })
        } else {
            None
        }
    }

    pub fn bits(&self) -> (r: u32)
        ensures
            r == self.bits,
    {
        self.bits
    }

    /// Whether every kind in `other` is in this set.
    pub fn contains(&self, other: AiPrimitiveType) -> (r: bool)
        ensures
            r == (self.bits & other.bits == other.bits),
    {
        self.bits & other.bits == other.bits
    }

    pub fn union(&self, other: AiPrimitiveType) -> (r: AiPrimitiveType)
        requires
            self.wf(),
            other.wf(),
        ensures
            r.bits == self.bits | other.bits,
            r.wf(),
    {
        let a = self.bits;
        let b = other.bits;
        proof {
            assert(a & !0xFu32 == 0 && b & !0xFu32 == 0 ==> (a | b) & !0xFu32 == 0)
                by (bit_vector);
        }
        AiPrimitiveType { bits: a | b }
    }
}

/// A set of post-processing steps. Every bit of the word names a step.
#[derive(Clone, Copy, Debug, PartialEq, Eq, Structural)]
pub struct AiPostProcessSteps {
    pub bits: u32,
}

impl AiPostProcessSteps {
    pub fn empty() -> (r: AiPostProcessSteps)
        ensures
            r.bits == 0,
    {
        AiPostProcessSteps { bits: 0 }
    }

    pub fn from_bits(bits: u32) -> (r: AiPostProcessSteps)
        ensures
            r.bits == bits,
    {
        AiPostProcessSteps { bits }
    }

    pub fn bits(&self) -> (r: u32)
        ensures
            r == self.bits,
    {
        self.bits
    }

    /// Whether every step in `other` is in this set.
    pub fn contains(&self, other: AiPostProcessSteps) -> (r: bool)
        ensures
            r == (self.bits & other.bits == other.bits),
    {
        self.bits & other.bits == other.bits
    }

    pub fn union(&self, other: AiPostProcessSteps) -> (r: AiPostProcessSteps)
        ensures
            r.bits == self.bits | other.bits,
    {
        AiPostProcessSteps { bits: self.bits | other.bits }
    }

    /// The fixed configuration every import runs with.
    pub fn import_steps() -> (r: AiPostProcessSteps)
        ensures
            r.bits == AI_PROCESS_PRESET_TARGET_REALTIME_MAX_QUALITY
                | AI_PROCESS_PRE_TRANSFORM_VERTICES,
            r.bits & AI_PROCESS_TRIANGULATE == AI_PROCESS_TRIANGULATE,
    {
        proof {
            lemma_presets();
        }
        let max = AiPostProcessSteps { bits: AI_PROCESS_PRESET_TARGET_REALTIME_MAX_QUALITY };
        max.union(AiPostProcessSteps { bits: AI_PROCESS_PRE_TRANSFORM_VERTICES })
    }
}

} // verus!
