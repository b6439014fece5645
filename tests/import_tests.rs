use rock::import::{ImportError, MeshByteFormat, PrimitiveStreams, check_primitive, import_mesh, meshes_from_streams};
use rock::mesh::BuildError;
use rock::vertex::VertexSemantics;

fn b3(x: f32, y: f32, z: f32) -> [u32; 3] {
    [x.to_bits(), y.to_bits(), z.to_bits()]
}

fn complete(n: usize) -> PrimitiveStreams {
    PrimitiveStreams {
        positions: Some((0..n).map(|i| b3(i as f32, 0.0, 0.0)).collect()),
        colors: None,
        uvs: None,
        normals: Some(vec![b3(0.0, 0.0, 1.0); n]),
        tangents: Some(vec![[1.0f32.to_bits(), 0, 0, 1.0f32.to_bits()]; n]),
        indices: Some((0..n as u32).collect()),
    }
}

#[test]
fn format_tags_ignore_case() {
    assert_eq!(MeshByteFormat::from_string("GLB".to_string()), MeshByteFormat::GLB);
    assert_eq!(MeshByteFormat::from_string("glTF".to_string()), MeshByteFormat::GLTF);
    assert_eq!(MeshByteFormat::from_string("gltf".to_string()), MeshByteFormat::GLTF);
    assert_eq!(MeshByteFormat::from_string("obj".to_string()), MeshByteFormat::Other);
    assert_eq!(MeshByteFormat::from_string("".to_string()), MeshByteFormat::Other);
    assert_eq!(MeshByteFormat::from_string("glbx".to_string()), MeshByteFormat::Other);
}

#[test]
fn lowercase_tags() {
    assert_eq!(MeshByteFormat::from_lowercase("glb"), MeshByteFormat::GLB);
    assert_eq!(MeshByteFormat::from_lowercase("GLB"), MeshByteFormat::Other);
    assert_eq!(MeshByteFormat::GLB.check_supported(), Ok(()));
    assert_eq!(MeshByteFormat::GLTF.check_supported(), Ok(()));
    assert_eq!(MeshByteFormat::Other.check_supported(), Err(ImportError::UnsupportedFormat));
}

#[test]
fn missing_normal_stream_is_reported() {
    let mut p = complete(3);
    p.normals = None;
    let e = import_mesh(&vec![p]).err().unwrap();
    assert_eq!(e, ImportError::MissingAttribute(VertexSemantics::Normal));
    match e {
        ImportError::MissingAttribute(a) => assert_eq!(a.name(), "normal"),
        _ => unreachable!(),
    }
}

#[test]
fn missing_color_stream_defaults_to_white() {
    let mesh = import_mesh(&vec![complete(3)]).unwrap();
    assert_eq!(mesh.vert_count(), 3);
    assert_eq!(mesh.tri_count(), 1);
    for v in mesh.vertices() {
        assert_eq!(v.color, [1.0f32.to_bits(); 3]);
        assert_eq!(v.uv, [0.0f32.to_bits(); 2]);
        assert_eq!(v.normal, b3(0.0, 0.0, 1.0));
    }
    assert_eq!(mesh.vertices()[2].position, b3(2.0, 0.0, 0.0));
    let all = meshes_from_streams(&vec![vec![complete(3)]]).unwrap();
    assert_eq!(all.len(), 1);
}

#[test]
fn missing_streams_in_order() {
    let mut p = complete(3);
    p.positions = None;
    p.normals = None;
    assert_eq!(check_primitive(&p), Some(ImportError::MissingAttribute(VertexSemantics::Position)));
    let mut p = complete(3);
    p.normals = None;
    p.indices = None;
    assert_eq!(check_primitive(&p), Some(ImportError::MissingAttribute(VertexSemantics::Normal)));
    let mut p = complete(3);
    p.indices = None;
    assert_eq!(check_primitive(&p), Some(ImportError::MissingIndices));
    assert_eq!(check_primitive(&complete(3)), None);
}

#[test]
fn missing_tangent_stream_takes_the_default() {
    let mut p = complete(3);
    p.tangents = None;
    let mesh = import_mesh(&vec![p]).unwrap();
    for v in mesh.vertices() {
        assert_eq!(v.tangent, [1.0f32.to_bits(), 0, 0, 1.0f32.to_bits()]);
    }
}

#[test]
fn short_stream_is_reported() {
    let mut p = complete(3);
    p.colors = Some(vec![b3(1.0, 0.0, 0.0); 2]);
    assert_eq!(check_primitive(&p), Some(ImportError::StreamLength(VertexSemantics::Color)));
    let mut p = complete(3);
    p.uvs = Some(vec![[0, 0]; 4]);
    assert_eq!(check_primitive(&p), Some(ImportError::StreamLength(VertexSemantics::UV)));
    let mut p = complete(3);
    p.normals = Some(vec![b3(0.0, 0.0, 1.0); 1]);
    assert_eq!(check_primitive(&p), Some(ImportError::StreamLength(VertexSemantics::Normal)));
    let mut p = complete(3);
    p.tangents = Some(vec![[0; 4]; 2]);
    assert_eq!(check_primitive(&p), Some(ImportError::StreamLength(VertexSemantics::Tangent)));
}

#[test]
fn primitives_merge_with_offset_indices() {
    let mesh = import_mesh(&vec![complete(3), complete(6)]).unwrap();
    assert_eq!(mesh.vert_count(), 9);
    assert_eq!(mesh.tri_count(), 3);
    assert_eq!(mesh.indices().unwrap(), &vec![0, 1, 2, 3, 4, 5, 6, 7, 8]);
    assert_eq!(mesh.vertices()[3].position, b3(0.0, 0.0, 0.0));
}

#[test]
fn present_color_stream_is_kept() {
    let mut p = complete(3);
    p.colors = Some(vec![b3(1.0, 0.0, 0.0), b3(0.0, 1.0, 0.0), b3(0.0, 0.0, 1.0)]);
    p.uvs = Some(vec![[5, 6]; 3]);
    let mesh = import_mesh(&vec![p]).unwrap();
    assert_eq!(mesh.vertices()[1].color, b3(0.0, 1.0, 0.0));
    assert_eq!(mesh.vertices()[1].uv, [5, 6]);
}

#[test]
fn offset_index_beyond_32_bits_overflows() {
    let mut p = complete(3);
    p.indices = Some(vec![u32::MAX]);
    assert_eq!(import_mesh(&vec![complete(3), p]).err(), Some(ImportError::IndexOverflow));
}

#[test]
fn out_of_range_index_fails_the_build() {
    let mut p = complete(3);
    p.indices = Some(vec![0, 1, 3]);
    assert_eq!(
        import_mesh(&vec![p]).err(),
        Some(ImportError::Build(BuildError::IndexOutOfRange { position: 2, index: 3 }))
    );
}

#[test]
fn mesh_without_primitives_has_no_vertices() {
    assert_eq!(import_mesh(&vec![]).err(), Some(ImportError::Build(BuildError::NoVertices)));
}

#[test]
fn first_failing_mesh_decides() {
    let mut bad = complete(3);
    bad.indices = None;
    let r = meshes_from_streams(&vec![vec![complete(3)], vec![bad], vec![]]);
    assert_eq!(r.err(), Some(ImportError::MissingIndices));
}

#[test]
fn every_mesh_gets_the_identity_transform() {
    let all = meshes_from_streams(&vec![vec![complete(3)], vec![complete(6)]]).unwrap();
    assert_eq!(all.len(), 2);
    for (mesh, t) in &all {
        assert!(mesh.vert_count() >= 3);
        assert_eq!(t.pos, [0; 3]);
        assert_eq!(t.rot, [0, 0, 0, 1.0f32.to_bits()]);
        assert_eq!(t.scale, [1.0f32.to_bits(); 3]);
    }
    assert_eq!(all[1].0.tri_count(), 2);
}
