use rock::mesh::{BuildError, MeshBuilder, Topology, create_triangle};
use rock::vertex::{VertexSemantics, VertexType};

fn vertex(x: f32, y: f32, z: f32) -> VertexType {
    VertexType::at([x.to_bits(), y.to_bits(), z.to_bits()])
}

fn triangle() -> Vec<VertexType> {
    vec![vertex(0.0, 0.0, 0.0), vertex(1.0, 0.0, 0.0), vertex(0.0, 1.0, 0.0)]
}

#[test]
fn three_vertices_without_indices_make_one_triangle() {
    let mesh = MeshBuilder::new().with_vertices(triangle()).build().unwrap();
    assert_eq!(mesh.vert_count(), 3);
    assert_eq!(mesh.tri_count(), 1);
}

#[test]
fn six_vertices_and_six_indices_make_two_triangles() {
    let mut vertices = triangle();
    vertices.extend(triangle());
    let mesh = MeshBuilder::new()
        .with_vertices(vertices)
        .with_indices(vec![0, 1, 2, 3, 4, 5])
        .with_topology(Topology::Triangle)
        .build()
        .unwrap();
    assert_eq!(mesh.vert_count(), 6);
    assert_eq!(mesh.tri_count(), 2);
}

#[test]
fn indexed_triangle_count_follows_the_indices() {
    let mesh = MeshBuilder::new()
        .with_vertices(triangle())
        .with_indices(vec![0, 1, 2, 2, 1, 0, 0, 0, 0])
        .build()
        .unwrap();
    assert_eq!(mesh.tri_count(), 3);
}

#[test]
fn incomplete_triangle_is_not_counted() {
    let mut vertices = triangle();
    vertices.push(vertex(1.0, 1.0, 0.0));
    let mesh = MeshBuilder::new().with_vertices(vertices).build().unwrap();
    assert_eq!(mesh.vert_count(), 4);
    assert_eq!(mesh.tri_count(), 1);
}

#[test]
fn empty_vertex_sequence_fails() {
    let r = MeshBuilder::new().build();
    assert_eq!(r.err(), Some(BuildError::NoVertices));
}

#[test]
fn first_out_of_range_index_is_reported() {
    let r = MeshBuilder::new().with_vertices(triangle()).with_indices(vec![0, 1, 7, 9]).build();
    assert_eq!(r.err(), Some(BuildError::IndexOutOfRange { position: 2, index: 7 }));
}

#[test]
fn shared_mesh_has_the_same_geometry() {
    let mesh = MeshBuilder::new().with_vertices(triangle()).build().unwrap();
    let other = mesh.share();
    assert_eq!(other.vert_count(), 3);
    assert_eq!(other.tri_count(), 1);
}

#[test]
fn vertex_defaults() {
    let v = VertexType::at([0, 0, 0]);
    assert_eq!(v.color, [1.0f32.to_bits(); 3]);
    assert_eq!(v.uv, [0.0f32.to_bits(); 2]);
    assert_eq!(v.normal, [0.0f32.to_bits(), 0.0f32.to_bits(), (-1.0f32).to_bits()]);
    assert_eq!(v.tangent, [1.0f32.to_bits(), 0.0f32.to_bits(), 0.0f32.to_bits(), 1.0f32.to_bits()]);
}

#[test]
fn semantics_names_and_widths() {
    assert_eq!(VertexSemantics::Position.name(), "position");
    assert_eq!(VertexSemantics::Color.name(), "color");
    assert_eq!(VertexSemantics::UV.name(), "uv");
    assert_eq!(VertexSemantics::Normal.name(), "normal");
    assert_eq!(VertexSemantics::Tangent.name(), "tangent");
    assert_eq!(VertexSemantics::UV.width(), 2);
    assert_eq!(VertexSemantics::Tangent.width(), 4);
}

#[test]
fn empty_index_sequence_counts_vertices() {
    let mesh = MeshBuilder::new().with_vertices(triangle()).with_indices(vec![]).build().unwrap();
    assert_eq!(mesh.tri_count(), 1);
    let mut six = triangle();
    six.extend(triangle());
    let mesh = MeshBuilder::new().with_vertices(six).with_indices(vec![]).build().unwrap();
    assert_eq!(mesh.tri_count(), 2);
}

#[test]
fn reference_triangle() {
    let mesh = create_triangle();
    assert_eq!(mesh.vert_count(), 3);
    assert_eq!(mesh.tri_count(), 1);
    assert!(mesh.indices().is_none());
    let v = mesh.vertices();
    assert_eq!(v[0].position, [(-1.0f32).to_bits(), (-1.0f32).to_bits(), 0]);
    assert_eq!(v[1].color, [0, 1.0f32.to_bits(), 0]);
    assert_eq!(v[2].uv, [0, 1.0f32.to_bits()]);
    assert_eq!(v[2].normal, [0, 0, (-1.0f32).to_bits()]);
}
