use assimp_scene::flags::{
    AI_IMPORT_STEPS, AI_PROCESS_PRESET_TARGET_REALTIME_MAX_QUALITY,
    AI_PROCESS_PRESET_TARGET_REALTIME_QUALITY, AI_PROCESS_PRE_TRANSFORM_VERTICES,
    AI_PROCESS_TRIANGULATE, AI_PRIMITIVE_TYPE_POLYGON, AI_PRIMITIVE_TYPE_TRIANGLE,
};
use assimp_scene::status::lookup_outcome;
use assimp_scene::{
    AiFace, AiMaterial, AiMesh, AiPostProcessSteps, AiPrimitiveType, AiPropertyTypeInfo,
    AiReturn, AiString, Scene,
};

type Vec3 = [f32; 3];
type Rgba = [f32; 4];

fn name(s: &str) -> AiString {
    AiString::from_bytes(s.as_bytes()).unwrap()
}

fn cube_vertices() -> Vec<Vec3> {
    let mut v = Vec::new();
    for i in 0..8u32 {
        v.push([(i & 1) as f32, ((i >> 1) & 1) as f32, ((i >> 2) & 1) as f32]);
    }
    v
}

/// Six quads of a unit cube, split into two triangles each.
fn cube_triangles() -> Vec<(u32, u32, u32)> {
    let quads: [[u32; 4]; 6] = [
        [0, 1, 3, 2],
        [4, 6, 7, 5],
        [0, 4, 5, 1],
        [2, 3, 7, 6],
        [0, 2, 6, 4],
        [1, 5, 7, 3],
    ];
    let mut t = Vec::new();
    for q in quads.iter() {
        t.push((q[0], q[1], q[2]));
        t.push((q[0], q[2], q[3]));
    }
    t
}

fn mesh_with_faces(faces: Vec<Vec<u32>>, material_index: u32) -> AiMesh<Vec3, Rgba> {
    let mut texture_coords: Vec<Option<Vec<Vec3>>> = vec![None; 8];
    texture_coords[1] = Some(vec![[0.5, 0.5, 0.0]; 8]);
    let mut colors: Vec<Option<Vec<Rgba>>> = vec![None; 8];
    colors[0] = Some(vec![[1.0, 0.0, 0.0, 1.0]; 8]);
    AiMesh {
        primitive_types: AiPrimitiveType::from_bits(AI_PRIMITIVE_TYPE_TRIANGLE).unwrap(),
        num_vertices: 8,
        vertices: Some(cube_vertices()),
        normals: Some(vec![[0.0, 0.0, 1.0]; 8]),
        tangents: None,
        bitangents: None,
        colors,
        texture_coords,
        num_uv_components: vec![0, 2, 0, 0, 0, 0, 0, 0],
        faces: faces.into_iter().map(|indices| AiFace { indices }).collect(),
        material_index,
        name: name("Cube"),
    }
}

fn cube_mesh() -> AiMesh<Vec3, Rgba> {
    let faces = cube_triangles().into_iter().map(|(a, b, c)| vec![a, b, c]).collect();
    mesh_with_faces(faces, 0)
}

fn red_material() -> AiMaterial<Rgba> {
    AiMaterial::from_queries(
        AiReturn::Success,
        name("Red"),
        AiReturn::Success,
        [0.8, 0.1, 0.1, 1.0],
        AiReturn::Failure,
        [0.0; 4],
    )
}

fn unnamed_material() -> AiMaterial<Rgba> {
    AiMaterial::from_queries(
        AiReturn::Failure,
        AiString::new(),
        AiReturn::Failure,
        [0.0; 4],
        AiReturn::Success,
        [0.0, 1.0, 0.0, 1.0],
    )
}

fn cube_scene() -> Scene<Vec3, Rgba> {
    Scene::from_parts(0, 1, vec![cube_mesh()], 2, vec![red_material(), unnamed_material()])
        .unwrap()
}

#[test]
fn return_codes() {
    assert_eq!(AiReturn::Success.code(), 0);
    assert_eq!(AiReturn::Failure.code(), -1);
    assert_eq!(AiReturn::OutOfMemory.code(), -3);
    assert_eq!(AiReturn::from_code(-3), Some(AiReturn::OutOfMemory));
    assert_eq!(AiReturn::from_code(0), Some(AiReturn::Success));
    assert_eq!(AiReturn::from_code(-2), None);
    assert!(AiReturn::Success.is_success());
    assert!(!AiReturn::OutOfMemory.is_success());
}

#[test]
fn property_type_codes() {
    assert_eq!(AiPropertyTypeInfo::Float.code(), 1);
    assert_eq!(AiPropertyTypeInfo::Buffer.code(), 5);
    assert_eq!(AiPropertyTypeInfo::from_code(3), Some(AiPropertyTypeInfo::String));
    assert_eq!(AiPropertyTypeInfo::from_code(0), None);
    assert_eq!(AiPropertyTypeInfo::from_code(6), None);
}

#[test]
fn lookup_outcome_keeps_only_success() {
    assert_eq!(lookup_outcome(AiReturn::Success, 7u8), Some(7));
    assert_eq!(lookup_outcome(AiReturn::Failure, 7u8), None);
    assert_eq!(lookup_outcome(AiReturn::OutOfMemory, 7u8), None);
}

#[test]
fn preset_values() {
    assert_eq!(AI_PROCESS_PRESET_TARGET_REALTIME_QUALITY, 0x79ACB);
    assert_eq!(AI_PROCESS_PRESET_TARGET_REALTIME_MAX_QUALITY, 0x379ECB);
    let steps = AiPostProcessSteps::import_steps();
    assert_eq!(steps.bits(), AI_IMPORT_STEPS);
    assert_eq!(
        steps.bits(),
        AI_PROCESS_PRESET_TARGET_REALTIME_MAX_QUALITY | AI_PROCESS_PRE_TRANSFORM_VERTICES
    );
    assert!(steps.contains(AiPostProcessSteps::from_bits(AI_PROCESS_TRIANGULATE)));
    let quality = AiPostProcessSteps::from_bits(AI_PROCESS_PRESET_TARGET_REALTIME_QUALITY);
    let max = AiPostProcessSteps::from_bits(AI_PROCESS_PRESET_TARGET_REALTIME_MAX_QUALITY);
    assert!(max.contains(quality));
    assert!(!quality.contains(max));
    assert_eq!(AiPostProcessSteps::empty().union(quality).bits(), quality.bits());
}

#[test]
fn primitive_type_sets() {
    assert!(AiPrimitiveType::from_bits(0x10).is_none());
    let t = AiPrimitiveType::from_bits(AI_PRIMITIVE_TYPE_TRIANGLE).unwrap();
    let p = AiPrimitiveType::from_bits(AI_PRIMITIVE_TYPE_POLYGON).unwrap();
    let both = t.union(p);
    assert_eq!(both.bits(), 0xC);
    assert!(both.contains(t));
    assert!(!t.contains(p));
    assert_eq!(AiPrimitiveType::empty().bits(), 0);
}

#[test]
fn fixed_string_holds_its_bytes() {
    let s = name("hi");
    assert!(s.is_well_formed());
    assert_eq!(s.len(), 2);
    assert_eq!(s.data.len(), 1024);
    assert_eq!(s.bytes(), vec![104u8, 105u8]);
    assert_eq!(s.to_text(), Some("hi".to_string()));
    assert_eq!(s.as_text(), "hi");
    let d = AiString::default();
    assert_eq!(d.len(), 0);
    assert_eq!(d.to_text(), Some(String::new()));
    let c = s.clone();
    assert_eq!(c.bytes(), s.bytes());
}

#[test]
fn fixed_string_capacity() {
    assert!(AiString::from_bytes(&[b'a'; 1024]).is_some());
    assert!(AiString::from_bytes(&[b'a'; 1025]).is_none());
}

#[test]
fn fixed_string_decodes_multibyte_text() {
    let s = AiString::from_bytes(&[0xC3, 0xA9, b'!']).unwrap();
    let t = s.to_text().unwrap();
    assert_eq!(t, "\u{e9}!");
    assert_eq!(t.chars().count(), 2);
    assert!(s.is_text());
}

#[test]
fn fixed_string_rejects_malformed_text() {
    let bad = AiString::from_bytes(&[0xC3, 0x28]).unwrap();
    assert_eq!(bad.to_text(), None);
    assert!(!bad.is_text());
    let surrogate = AiString::from_bytes(&[0xED, 0xA0, 0x80]).unwrap();
    assert!(!surrogate.is_text());
}

#[test]
fn fixed_string_ignores_bytes_past_length() {
    let mut s = name("abc");
    s.length = 1;
    assert_eq!(s.to_text(), Some("a".to_string()));
    s.length = 1025;
    assert!(!s.is_well_formed());
}

#[test]
fn cube_triangles_cover_every_face() {
    let m = cube_mesh();
    assert!(m.is_well_formed());
    assert!(m.is_triangulated());
    assert_eq!(m.faces.len(), 12);
    let t = m.triangles();
    assert_eq!(t.len(), 12);
    assert_eq!(t, cube_triangles());
    for (a, b, c) in t.iter() {
        assert!(*a < m.num_vertices && *b < m.num_vertices && *c < m.num_vertices);
    }
}

#[test]
fn triangles_are_restartable() {
    let m = cube_mesh();
    assert_eq!(m.triangles(), m.triangles());
}

#[test]
fn vertex_attribute_views() {
    let m = cube_mesh();
    assert_eq!(m.verts().len(), 8);
    assert_eq!(m.verts()[7], [1.0, 1.0, 1.0]);
    assert_eq!(m.normals().len(), 8);
    assert!(m.tangents.is_none());
    assert_eq!(m.name(), "Cube");
    assert_eq!(m.faces[0].num_indices(), 3);
}

#[test]
fn texture_coordinate_channels() {
    let m = cube_mesh();
    assert!(m.texcoords(0).is_none());
    assert_eq!(m.texcoords(1).unwrap().len(), 8);
    assert_eq!(m.texcoords(1).unwrap()[0], [0.5, 0.5, 0.0]);
    assert!(m.texcoords(8).is_none());
    assert!(m.texcoords(usize::MAX).is_none());
}

#[test]
fn vertex_color_channels() {
    let m = cube_mesh();
    assert_eq!(m.colors(0).unwrap().len(), 8);
    assert_eq!(m.colors(0).unwrap()[3], [1.0, 0.0, 0.0, 1.0]);
    assert!(m.colors(1).is_none());
    assert!(m.colors(8).is_none());
}

#[test]
fn empty_channel_is_not_absent() {
    let mut m = mesh_with_faces(vec![], 0);
    m.num_vertices = 0;
    m.vertices = Some(vec![]);
    m.normals = None;
    m.colors = vec![None; 8];
    m.texture_coords = vec![None; 8];
    m.texture_coords[2] = Some(vec![]);
    assert!(m.is_well_formed());
    assert_eq!(m.texcoords(2).map(|s| s.len()), Some(0));
    assert!(m.texcoords(3).is_none());
    assert!(m.triangles().is_empty());
}

#[test]
fn mesh_layout_violations() {
    let mut short = cube_mesh();
    short.normals = Some(vec![[0.0; 3]; 7]);
    assert!(!short.is_well_formed());

    let mut channels = cube_mesh();
    channels.texture_coords.pop();
    assert!(!channels.is_well_formed());

    let mut color = cube_mesh();
    color.colors[5] = Some(vec![[0.0; 4]; 9]);
    assert!(!color.is_well_formed());

    let out_of_range = mesh_with_faces(vec![vec![0, 1, 8]], 0);
    assert!(!out_of_range.is_well_formed());

    let mut bits = cube_mesh();
    bits.primitive_types = AiPrimitiveType { bits: 0x20 };
    assert!(!bits.is_well_formed());
}

#[test]
fn quad_faces_are_not_triangulated() {
    let m = mesh_with_faces(vec![vec![0, 1, 3, 2], vec![0, 1, 2]], 0);
    assert!(m.is_well_formed());
    assert!(!m.is_triangulated());
}

#[test]
fn material_colors_and_name() {
    let m = red_material();
    assert!(m.is_well_formed());
    assert_eq!(m.name(), Some("Red".to_string()));
    assert!(m.emissive_color().is_none());
    let d = m.diffuse_color().unwrap();
    let expected: Rgba = [0.8, 0.1, 0.1, 1.0];
    for k in 0..4 {
        assert!((d[k] - expected[k]).abs() < 1e-6);
    }
}

#[test]
fn material_without_properties() {
    let m = unnamed_material();
    assert_eq!(m.name(), None);
    assert_eq!(m.name_or_empty(), "");
    assert!(m.diffuse_color().is_none());
    assert_eq!(m.emissive_color(), Some([0.0, 1.0, 0.0, 1.0]));
}

#[test]
fn material_with_malformed_name() {
    let m: AiMaterial<Rgba> = AiMaterial::from_queries(
        AiReturn::Success,
        AiString::from_bytes(&[0xFF]).unwrap(),
        AiReturn::Failure,
        [0.0; 4],
        AiReturn::Failure,
        [0.0; 4],
    );
    assert!(!m.is_well_formed());
    let s = Scene::from_parts(0, 0, Vec::<AiMesh<Vec3, Rgba>>::new(), 1, vec![m]);
    assert!(s.is_none());
}

#[test]
fn scene_counts_match_sequences() {
    let s = cube_scene();
    assert_eq!(s.num_meshes(), 1);
    assert_eq!(s.num_meshes(), s.meshes().len());
    assert_eq!(s.num_materials(), 2);
    assert_eq!(s.num_materials(), s.materials().len());
    assert_eq!(s.flags(), 0);
    assert_eq!(s.meshes()[0].triangles().len(), 12);
}

#[test]
fn scene_sequences_are_restartable() {
    let s = cube_scene();
    let first = s.material_names();
    assert_eq!(first, vec!["Red".to_string(), String::new()]);
    assert_eq!(s.material_names(), first);
    let a: Vec<u32> = s.meshes().iter().map(|m| m.num_vertices).collect();
    let b: Vec<u32> = s.meshes().iter().map(|m| m.num_vertices).collect();
    assert_eq!(a, b);
    let c: Vec<Option<String>> = s.materials().iter().map(|m| m.name()).collect();
    let d: Vec<Option<String>> = s.materials().iter().map(|m| m.name()).collect();
    assert_eq!(c, d);
}

#[test]
fn scene_rejects_inconsistent_parts() {
    assert!(Scene::from_parts(0, 2, vec![cube_mesh()], 1, vec![red_material()]).is_none());
    assert!(Scene::from_parts(0, 1, vec![cube_mesh()], 2, vec![red_material()]).is_none());
    let wrong_material = mesh_with_faces(vec![vec![0, 1, 2]], 1);
    assert!(Scene::from_parts(0, 1, vec![wrong_material], 1, vec![red_material()]).is_none());
    let empty: Scene<Vec3, Rgba> = Scene::from_parts(3, 0, vec![], 0, vec![]).unwrap();
    assert_eq!(empty.num_meshes(), 0);
    assert!(empty.material_names().is_empty());
    assert_eq!(empty.flags(), 3);
}
