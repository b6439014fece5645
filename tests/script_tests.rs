use rock::engine::{FrameStats, Rock};
use rock::math::Transform;
use rock::mesh::BuildError;
use rock::script::{LuaMaterial, LuaMesh, ScriptError, ScriptTable, ScriptValue, decode_vertex, decode_vertices, lua_print, mesh_constructor};
use rock::vertex::{VertexSemantics, VertexType};

fn num(x: f32) -> ScriptValue {
    ScriptValue::Number(x.to_bits())
}

fn list(items: Vec<ScriptValue>) -> ScriptValue {
    ScriptValue::Table(ScriptTable { items, fields: vec![] })
}

fn record(fields: Vec<(&str, ScriptValue)>) -> ScriptValue {
    ScriptValue::Table(ScriptTable {
        items: vec![],
        fields: fields.into_iter().map(|(k, v)| (k.to_string(), v)).collect(),
    })
}

fn v3(x: f32, y: f32, z: f32) -> ScriptValue {
    list(vec![num(x), num(y), num(z)])
}

fn bits3(x: f32, y: f32, z: f32) -> [u32; 3] {
    [x.to_bits(), y.to_bits(), z.to_bits()]
}

#[test]
fn guest_mesh_is_drawn_once_per_frame() {
    let verts = list(vec![
        record(vec![("pos", v3(0.0, 0.0, 0.0)), ("color", v3(1.0, 0.0, 0.0))]),
        record(vec![("pos", v3(1.0, 0.0, 0.0)), ("color", v3(0.0, 1.0, 0.0))]),
        record(vec![("pos", v3(0.0, 1.0, 0.0)), ("color", v3(0.0, 0.0, 1.0))]),
    ]);
    let mesh = mesh_constructor(&verts).unwrap();
    assert_eq!(mesh.mesh.vertices()[1].position, bits3(1.0, 0.0, 0.0));
    assert_eq!(mesh.mesh.vertices()[2].color, bits3(0.0, 0.0, 1.0));
    let mut rock = Rock::new();
    rock.init().unwrap();
    rock.begin_frame().unwrap();
    rock.submit_draw(&mesh.mesh, &Transform::identity()).unwrap();
    assert_eq!(rock.end_frame().unwrap(), FrameStats { draw_calls: 1, triangles: 1 });
}

#[test]
fn positional_record_with_vector_handles() {
    let rec = list(vec![
        ScriptValue::Vector(vec![1, 2, 3]),
        ScriptValue::Vector(vec![4, 5, 6]),
        ScriptValue::Vector(vec![7, 8, 9, 10]),
        ScriptValue::Vector(vec![11, 12, 13]),
        ScriptValue::Vector(vec![14, 15]),
    ]);
    let v = decode_vertex(&rec, 0).unwrap();
    assert_eq!(v, VertexType::new([1, 2, 3], [11, 12, 13], [14, 15], [4, 5, 6], [7, 8, 9, 10]));
}

#[test]
fn position_wins_over_key() {
    let rec = ScriptValue::Table(ScriptTable {
        items: vec![ScriptValue::Vector(vec![1, 2, 3])],
        fields: vec![("pos".to_string(), ScriptValue::Vector(vec![9, 9, 9]))],
    });
    assert_eq!(decode_vertex(&rec, 0).unwrap().position, [1, 2, 3]);
    let rec = ScriptValue::Table(ScriptTable {
        items: vec![ScriptValue::Nil],
        fields: vec![("pos".to_string(), ScriptValue::Vector(vec![9, 9, 9]))],
    });
    assert_eq!(decode_vertex(&rec, 0).unwrap().position, [9, 9, 9]);
}

#[test]
fn missing_attributes_take_defaults() {
    let v = decode_vertex(&record(vec![("pos", v3(0.0, 0.0, 0.0))]), 0).unwrap();
    assert_eq!(v, VertexType::at([0, 0, 0]));
}

#[test]
fn missing_position_is_reported() {
    let e = decode_vertex(&record(vec![("color", v3(1.0, 1.0, 1.0))]), 4).err();
    assert_eq!(e, Some(ScriptError::MissingField { vertex: 4, field: VertexSemantics::Position }));
}

#[test]
fn malformed_attribute_is_reported() {
    let rec = record(vec![("pos", v3(0.0, 0.0, 0.0)), ("uv", v3(0.0, 0.0, 0.0))]);
    assert_eq!(decode_vertex(&rec, 1).err(), Some(ScriptError::BadField { vertex: 1, field: VertexSemantics::UV }));
    let rec = record(vec![("pos", list(vec![num(0.0), ScriptValue::Boolean(true), num(0.0)]))]);
    assert_eq!(decode_vertex(&rec, 0).err(), Some(ScriptError::BadField { vertex: 0, field: VertexSemantics::Position }));
    let rec = record(vec![("pos", ScriptValue::Text("origin".to_string()))]);
    assert_eq!(decode_vertex(&rec, 0).err(), Some(ScriptError::BadField { vertex: 0, field: VertexSemantics::Position }));
}

#[test]
fn record_must_be_a_table() {
    let verts = list(vec![record(vec![("pos", v3(0.0, 0.0, 0.0))]), num(3.0)]);
    assert_eq!(decode_vertices(&verts).err(), Some(ScriptError::NotATable { vertex: 1 }));
}

#[test]
fn vertex_list_must_be_a_table() {
    assert_eq!(decode_vertices(&num(1.0)).err(), Some(ScriptError::NotAList));
    assert_eq!(mesh_constructor(&ScriptValue::Nil).err().unwrap(), ScriptError::NotAList);
}

#[test]
fn empty_vertex_list_builds_no_mesh() {
    assert_eq!(mesh_constructor(&list(vec![])).err().unwrap(), ScriptError::Build(BuildError::NoVertices));
}

#[test]
fn handles_describe_themselves() {
    assert_eq!(LuaMaterial.describe(), "Material");
    let m = LuaMesh::new(vec![VertexType::at([0, 0, 0]); 3]).unwrap();
    assert_eq!(m.describe(), "RockMesh");
    let shared = LuaMesh::from_mesh(m.mesh.share());
    assert_eq!(shared.share().mesh.tri_count(), 1);
    assert_eq!(LuaMesh::new(vec![]).err(), Some(BuildError::NoVertices));
}

#[test]
fn print_concatenates_arguments() {
    let a = "hello".to_string();
    let b = " from ".to_string();
    let c = "lua!".to_string();
    assert_eq!(lua_print(vec![&a, &b, &c]), "hello from lua!");
    assert_eq!(lua_print(vec![]), "");
}
