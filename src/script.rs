//! Guest values and their decoding into native vertex records.
//!
//! A guest vertex record is a table whose attributes stand either at fixed
//! positions (1: position, 2: normal, 3: tangent, 4: color, 5: uv) or under
//! the keys `pos`, `normal`, `tangent`, `color` and `uv`; a position wins
//! over a key. Each attribute is a vector handle or a table of numbers of the
//! attribute's width. The position is required; a missing normal, tangent,
//! color or uv takes its default (see `vertex`).
use vstd::prelude::*;
use vstd::string::*;

use crate::import::chars_equal;
use crate::mesh::{BuildError, Mesh, MeshBuilder, MeshGeometry, Topology};
use crate::vertex::{DEFAULT_COLOR, DEFAULT_NORMAL, DEFAULT_TANGENT, DEFAULT_UV, VertexSemantics, VertexType};

verus! {

/// A value of the guest environment, as handed to native code. Numbers are
/// single-precision bit patterns.
pub enum ScriptValue {
    Nil,
    Boolean(bool),
    Number(u32),
    Text(String),
    /// A vector handle, by its components.
    Vector(Vec<u32>),
    Table(ScriptTable),
}

/// A guest table: its sequence part (keys 1, 2, ...) and its string-keyed
/// part.
pub struct ScriptTable {
    pub items: Vec<ScriptValue>,
    pub fields: Vec<(String, ScriptValue)>,
}

/// Every record of a vertex list decodes.
pub open spec fn list_decodes(v: ScriptValue) -> bool {
    v is Table && forall|i: int| 0 <= i < v->Table_0.items@.len() ==> vertex_error(#[trigger] v->Table_0.items@[i], i as usize) is None
}

/// `e` is the error that decoding a vertex list gives: `NotAList` for a
/// value that is not a table, else the error of its first record that fails.
pub open spec fn list_error_is(v: ScriptValue, e: ScriptError) -> bool {
    match v {
        ScriptValue::Table(t) => exists|k: int| {
            &&& 0 <= k < t.items@.len()
            &&& vertex_error(#[trigger] t.items@[k], k as usize) == Some(e)
            &&& forall|j: int| 0 <= j < k ==> vertex_error(#[trigger] t.items@[j], j as usize) is None
        },
        _ => e == ScriptError::NotAList,
    }
}

/// Why a guest value could not be decoded; raised back into the guest.
#[derive(Copy, Clone, Debug, PartialEq, Eq, Structural)]
pub enum ScriptError {
    /// The vertex list is not a table.
    NotAList,
    /// The record of the vertex at this position (from 0) is not a table.
    NotATable { vertex: usize },
    /// A required attribute of the vertex is absent.
    MissingField { vertex: usize, field: VertexSemantics },
    /// An attribute of the vertex is neither a vector handle nor a table of
    /// numbers of the attribute's width.
    BadField { vertex: usize, field: VertexSemantics },
    /// The decoded vertices did not make a mesh.
    Build(BuildError),
}

/// The position (from 0) of an attribute in a vertex record.
pub open spec fn slot_of(a: VertexSemantics) -> int {
    match a {
        VertexSemantics::Position => 0,
        VertexSemantics::Normal => 1,
        VertexSemantics::Tangent => 2,
        VertexSemantics::Color => 3,
        VertexSemantics::UV => 4,
    }
}

/// The key of an attribute in a vertex record.
pub open spec fn key_of(a: VertexSemantics) -> Seq<char> {
    match a {
        VertexSemantics::Position => seq!['p', 'o', 's'],
        VertexSemantics::Normal => seq!['n', 'o', 'r', 'm', 'a', 'l'],
        VertexSemantics::Tangent => seq!['t', 'a', 'n', 'g', 'e', 'n', 't'],
        VertexSemantics::Color => seq!['c', 'o', 'l', 'o', 'r'],
        VertexSemantics::UV => seq!['u', 'v'],
    }
}

/// The value under `key` in the first field that has it, if any.
pub open spec fn field_value(fields: Seq<(String, ScriptValue)>, key: Seq<char>) -> Option<ScriptValue>
    decreases fields.len(),
{
    if fields.len() == 0 {
        None
    } else if fields[0].0@ == key {
        Some(fields[0].1)
    } else {
        field_value(fields.subrange(1, fields.len() as int), key)
    }
}

/// The value of an attribute in a record: at its position if one stands
/// there and is not nil, else under its key if that is not nil.
pub open spec fn attribute_value(t: ScriptTable, a: VertexSemantics) -> Option<ScriptValue> {
    let s = slot_of(a);
    if s < t.items@.len() && !(t.items@[s] is Nil) {
        Some(t.items@[s])
    } else {
        match field_value(t.fields@, key_of(a)) {
            Some(v) => if v is Nil {
                None
            } else {
                Some(v)
            },
            None => None,
        }
    }
}

/// The components that a value gives for an attribute of width `n`.
pub open spec fn components_of(v: ScriptValue, n: nat) -> Option<Seq<u32>> {
    match v {
        ScriptValue::Vector(c) => if c@.len() == n {
            Some(c@)
        } else {
            None
        },
        ScriptValue::Table(t) => if t.items@.len() == n && (forall|i: int| 0 <= i < n ==> #[trigger] t.items@[i] is Number) {
            Some(Seq::new(n, |i: int| t.items@[i]->Number_0))
        } else {
            None
        },
        _ => None,
    }
}

/// The default of an attribute that a record leaves out.
pub open spec fn default_of(a: VertexSemantics) -> Seq<u32> {
    match a {
        VertexSemantics::Position => Seq::empty(),
        VertexSemantics::Normal => DEFAULT_NORMAL@,
        VertexSemantics::Tangent => DEFAULT_TANGENT@,
        VertexSemantics::Color => DEFAULT_COLOR@,
        VertexSemantics::UV => DEFAULT_UV@,
    }
}

/// The error that decoding attribute `a` of the record of vertex `i` gives, if any.
pub open spec fn attribute_error(t: ScriptTable, a: VertexSemantics, i: usize) -> Option<ScriptError> {
    match attribute_value(t, a) {
        None => if a is Position {
            Some(ScriptError::MissingField { vertex: i, field: a })
        } else {
            None
        },
        Some(v) => if components_of(v, a.spec_width()) is None {
            Some(ScriptError::BadField { vertex: i, field: a })
        } else {
            None
        },
    }
}

/// The components that attribute `a` of a record without error decodes to.
pub open spec fn attribute_components(t: ScriptTable, a: VertexSemantics) -> Seq<u32> {
    match attribute_value(t, a) {
        None => default_of(a),
        Some(v) => components_of(v, a.spec_width())->0,
    }
}

/// The error that decoding the record of vertex `i` gives, if any: the
/// attributes are taken in the order of their positions.
pub open spec fn vertex_error(v: ScriptValue, i: usize) -> Option<ScriptError> {
    match v {
        ScriptValue::Table(t) => if attribute_error(t, VertexSemantics::Position, i) is Some {
            attribute_error(t, VertexSemantics::Position, i)
        } else if attribute_error(t, VertexSemantics::Normal, i) is Some {
            attribute_error(t, VertexSemantics::Normal, i)
        } else if attribute_error(t, VertexSemantics::Tangent, i) is Some {
            attribute_error(t, VertexSemantics::Tangent, i)
        } else if attribute_error(t, VertexSemantics::Color, i) is Some {
            attribute_error(t, VertexSemantics::Color, i)
        } else {
            attribute_error(t, VertexSemantics::UV, i)
        },
        _ => Some(ScriptError::NotATable { vertex: i }),
    }
}

/// The vertex that a record without error decodes to.
pub open spec fn decodes_to(v: ScriptValue, x: VertexType) -> bool {
    v is Table && {
        let t = v->Table_0;
        &&& x.position@ == attribute_components(t, VertexSemantics::Position)
        &&& x.normal@ == attribute_components(t, VertexSemantics::Normal)
        &&& x.tangent@ == attribute_components(t, VertexSemantics::Tangent)
        &&& x.color@ == attribute_components(t, VertexSemantics::Color)
        &&& x.uv@ == attribute_components(t, VertexSemantics::UV)
    }
}

fn key_str(a: VertexSemantics) -> (r: &'static str)
    ensures
        r@ == key_of(a),
{
    proof {
        reveal_strlit("pos");
        reveal_strlit("normal");
        reveal_strlit("tangent");
        reveal_strlit("color");
        reveal_strlit("uv");
    }
    match a {
        VertexSemantics::Position => {
            assert("pos"@ =~= key_of(a));
            "pos"
        },
        VertexSemantics::Normal => {
            assert("normal"@ =~= key_of(a));
            "normal"
        },
        VertexSemantics::Tangent => {
            assert("tangent"@ =~= key_of(a));
            "tangent"
        },
        VertexSemantics::Color => {
            assert("color"@ =~= key_of(a));
            "color"
        },
        VertexSemantics::UV => {
            assert("uv"@ =~= key_of(a));
            "uv"
        },
    }
}

fn slot(a: VertexSemantics) -> (r: usize)
    ensures
        r == slot_of(a),
{
    match a {
        VertexSemantics::Position => 0,
        VertexSemantics::Normal => 1,
        VertexSemantics::Tangent => 2,
        VertexSemantics::Color => 3,
        VertexSemantics::UV => 4,
    }
}

/// The value under `key` in the first field that has it.
fn find_field<'a>(fields: &'a Vec<(String, ScriptValue)>, key: &str) -> (r: Option<&'a ScriptValue>)
    ensures
        match r {
            Some(v) => field_value(fields@, key@) == Some(*v),
            None => field_value(fields@, key@) is None,
        },
{
    let mut j: usize = 0;
    assert(fields@.subrange(0, fields@.len() as int) =~= fields@);
    while j < fields.len()
        invariant
            j <= fields@.len(),
            field_value(fields@, key@) == field_value(fields@.subrange(j as int, fields@.len() as int), key@),
        decreases fields@.len() - j,
    {
        let ghost rest = fields@.subrange(j as int, fields@.len() as int);
        assert(rest.subrange(1, rest.len() as int) =~= fields@.subrange(j + 1, fields@.len() as int));
        if chars_equal(fields[j].0.as_str(), key) {
            return Some(&fields[j].1);
        }
        j = j + 1;
    }
    None
}

/// The value of an attribute in a record.
fn attribute<'a>(t: &'a ScriptTable, a: VertexSemantics) -> (r: Option<&'a ScriptValue>)
    ensures
        match r {
            Some(v) => attribute_value(*t, a) == Some(*v),
            None => attribute_value(*t, a) is None,
        },
{
    let s = slot(a);
    if s < t.items.len() && !matches!(t.items[s], ScriptValue::Nil) {
        return Some(&t.items[s]);
    }
    match find_field(&t.fields, key_str(a)) {
        Some(v) => if matches!(v, ScriptValue::Nil) {
            None
        } else {
            Some(v)
        },
        None => None,
    }
}

/// The components that a value gives for an attribute of width `n`.
fn components(v: &ScriptValue, n: usize) -> (r: Option<Vec<u32>>)
    ensures
        match r {
            Some(c) => components_of(*v, n as nat) == Some(c@),
            None => components_of(*v, n as nat) is None,
        },
{
    match v {
        ScriptValue::Vector(c) => if c.len() == n {
            let copy = c.clone();
            assert(copy@ =~= c@);
            assert(components_of(*v, n as nat) == Some(c@));
            Some(copy)
        } else {
            None
        },
        ScriptValue::Table(t) => {
            if t.items.len() != n {
                return None;
            }
            let mut out: Vec<u32> = Vec::new();
            let mut i: usize = 0;
            while i < n
                invariant
                    *v == ScriptValue::Table(*t),
                    n == t.items@.len(),
                    i <= n,
                    out@.len() == i,
                    forall|k: int| 0 <= k < i ==> #[trigger] t.items@[k] is Number,
                    forall|k: int| 0 <= k < i ==> out@[k] == #[trigger] t.items@[k]->Number_0,
                decreases n - i,
            {
                match &t.items[i] {
                    ScriptValue::Number(x) => {
                        let ghost before = out@;
                        out.push(*x);
                        assert(t.items@[i as int] == ScriptValue::Number(*x));
                        assert(out@[i as int] == t.items@[i as int]->Number_0);
                        assert(forall|k: int| 0 <= k < i ==> out@[k] == before[k]);
                    },
                    _ => {
                        assert(!(t.items@[i as int] is Number));
                        return None;
                    },
                }
                i = i + 1;
            }
            assert(out@ =~= Seq::new(n as nat, |k: int| t.items@[k]->Number_0));
            assert(forall|k: int| 0 <= k < n ==> #[trigger] t.items@[k] is Number);
            assert(components_of(*v, n as nat) == Some(out@));
            Some(out)
        },
        _ => None,
    }
}

/// Decodes attribute `a` of the record of vertex `i`: `None` where the
/// record leaves it to its default.
fn decode_attribute(t: &ScriptTable, a: VertexSemantics, i: usize) -> (r: Result<Option<Vec<u32>>, ScriptError>)
    ensures
        match r {
            Ok(Some(c)) => attribute_error(*t, a, i) is None && attribute_value(*t, a) is Some && c@ == attribute_components(*t, a),
            Ok(None) => attribute_error(*t, a, i) is None && attribute_value(*t, a) is None,
            Err(e) => attribute_error(*t, a, i) == Some(e),
        },
{
    match attribute(t, a) {
        None => if matches!(a, VertexSemantics::Position) {
            Err(ScriptError::MissingField { vertex: i, field: a })
        } else {
            Ok(None)
        },
        Some(v) => match components(v, a.width()) {
            Some(c) => Ok(Some(c)),
            None => Err(ScriptError::BadField { vertex: i, field: a }),
        },
    }
}

/// Decodes the record of the vertex at position `i` of a vertex list.
pub fn decode_vertex(v: &ScriptValue, i: usize) -> (r: Result<VertexType, ScriptError>)
    ensures
        r is Ok <==> vertex_error(*v, i) is None,
        r matches Ok(x) ==> decodes_to(*v, x),
        r matches Err(e) ==> vertex_error(*v, i) == Some(e),
{
    let t = match v {
        ScriptValue::Table(t) => t,
        _ => {
            return Err(ScriptError::NotATable { vertex: i });
        },
    };
    let position = match decode_attribute(t, VertexSemantics::Position, i) {
        Err(e) => {
            return Err(e);
        },
        Ok(None) => {
            return Err(ScriptError::MissingField { vertex: i, field: VertexSemantics::Position });
        },
        Ok(Some(c)) => [c[0], c[1], c[2]],
    };
    let normal = match decode_attribute(t, VertexSemantics::Normal, i) {
        Err(e) => {
            return Err(e);
        },
        Ok(None) => DEFAULT_NORMAL,
        Ok(Some(c)) => [c[0], c[1], c[2]],
    };
    let tangent = match decode_attribute(t, VertexSemantics::Tangent, i) {
        Err(e) => {
            return Err(e);
        },
        Ok(None) => DEFAULT_TANGENT,
        Ok(Some(c)) => [c[0], c[1], c[2], c[3]],
    };
    let color = match decode_attribute(t, VertexSemantics::Color, i) {
        Err(e) => {
            return Err(e);
        },
        Ok(None) => DEFAULT_COLOR,
        Ok(Some(c)) => [c[0], c[1], c[2]],
    };
    let uv = match decode_attribute(t, VertexSemantics::UV, i) {
        Err(e) => {
            return Err(e);
        },
        Ok(None) => DEFAULT_UV,
        Ok(Some(c)) => [c[0], c[1]],
    };
    assert(position@ =~= attribute_components(*t, VertexSemantics::Position));
    assert(normal@ =~= attribute_components(*t, VertexSemantics::Normal));
    assert(tangent@ =~= attribute_components(*t, VertexSemantics::Tangent));
    assert(color@ =~= attribute_components(*t, VertexSemantics::Color));
    assert(uv@ =~= attribute_components(*t, VertexSemantics::UV));
    Ok(VertexType { position, color, uv, normal, tangent })
}

/// Decodes a vertex list: a table whose sequence part holds one record per
/// vertex.
pub fn decode_vertices(v: &ScriptValue) -> (r: Result<Vec<VertexType>, ScriptError>)
    ensures
        r is Ok <==> list_decodes(*v),
        r matches Ok(xs) ==> xs@.len() == v->Table_0.items@.len() && forall|i: int| 0 <= i < xs@.len() ==> decodes_to(v->Table_0.items@[i], #[trigger] xs@[i]),
        r matches Err(e) ==> list_error_is(*v, e),
{
    let t = match v {
        ScriptValue::Table(t) => t,
        _ => {
            return Err(ScriptError::NotAList);
        },
    };
    let mut out: Vec<VertexType> = Vec::new();
    let mut i: usize = 0;
    while i < t.items.len()
        invariant
            *v == ScriptValue::Table(*t),
            i <= t.items@.len(),
            out@.len() == i,
            forall|j: int| 0 <= j < i ==> vertex_error(#[trigger] t.items@[j], j as usize) is None,
            forall|j: int| 0 <= j < i ==> decodes_to(t.items@[j], #[trigger] out@[j]),
        decreases t.items@.len() - i,
    {
        match decode_vertex(&t.items[i], i) {
            Ok(x) => {
                out.push(x);
            },
            Err(e) => {
                assert(vertex_error(t.items@[i as int], (i as int) as usize) == Some(e));
                return Err(e);
            },
        }
        i = i + 1;
    }
    Ok(out)
}

/// A mesh handed to the guest.
pub struct LuaMesh {
    pub mesh: Mesh,
}

/// The geometry of an unindexed triangle mesh over `vertices`.
pub open spec fn unindexed(vertices: Seq<VertexType>) -> MeshGeometry {
    MeshGeometry { vertices, indices: None, topology: Topology::Triangle }
}

impl LuaMesh {
    /// An unindexed triangle mesh over `vertices`.
    pub fn new(vertices: Vec<VertexType>) -> (r: Result<LuaMesh, BuildError>)
        ensures
            r is Ok <==> vertices@.len() > 0,
            r matches Ok(m) ==> m.mesh@ == unindexed(vertices@),
            r matches Err(e) ==> e == BuildError::NoVertices,
    {
        let built = MeshBuilder::new().with_vertices(vertices).build();
        match built {
            Ok(mesh) => Ok(LuaMesh { mesh }),
            Err(e) => Err(e),
        }
    }

    pub fn from_mesh(mesh: Mesh) -> (r: LuaMesh)
        ensures
            r.mesh@ == mesh@,
    {
        LuaMesh { mesh }
    }

    /// A second guest handle on the same geometry.
    pub fn share(&self) -> (r: LuaMesh)
        ensures
            r.mesh@ == self.mesh@,
    {
        LuaMesh { mesh: self.mesh.share() }
    }

    /// What the guest sees when it prints the handle.
    pub fn describe(&self) -> (r: &'static str)
        ensures
            r@ == seq!['R', 'o', 'c', 'k', 'M', 'e', 's', 'h'],
    {
        proof {
            reveal_strlit("RockMesh");
        }
        assert("RockMesh"@ =~= seq!['R', 'o', 'c', 'k', 'M', 'e', 's', 'h']);
        "RockMesh"
    }
}

/// Builds the mesh that the guest's `graphics.mesh(vertices)` asks for: the
/// decoded vertices, unindexed, as triangles.
pub fn mesh_constructor(lua_verts: &ScriptValue) -> (r: Result<LuaMesh, ScriptError>)
    ensures
        r is Ok <==> list_decodes(*lua_verts) && lua_verts->Table_0.items@.len() > 0,
        r matches Ok(m) ==> {
            &&& m.mesh@.vertices.len() == lua_verts->Table_0.items@.len()
            &&& m.mesh@.indices is None
            &&& m.mesh@.topology == Topology::Triangle
            &&& forall|i: int| 0 <= i < m.mesh@.vertices.len() ==> decodes_to(lua_verts->Table_0.items@[i], #[trigger] m.mesh@.vertices[i])
        },
        r matches Err(e) ==> if list_decodes(*lua_verts) {
            e == ScriptError::Build(BuildError::NoVertices)
        } else {
            list_error_is(*lua_verts, e)
        },
{
    let vertices = match decode_vertices(lua_verts) {
        Ok(xs) => xs,
        Err(e) => {
            return Err(e);
        },
    };
    match LuaMesh::new(vertices) {
        Ok(m) => Ok(m),
        Err(b) => Err(ScriptError::Build(b)),
    }
}

/// A material of the guest, with no native counterpart: its parameters are
/// all sent to the shader by the guest.
#[derive(Copy, Clone, Debug, PartialEq, Eq, Structural)]
pub struct LuaMaterial;

impl LuaMaterial {
    /// What the guest sees when it prints the handle.
    pub fn describe(&self) -> (r: &'static str)
        ensures
            r@ == seq!['M', 'a', 't', 'e', 'r', 'i', 'a', 'l'],
    {
        proof {
            reveal_strlit("Material");
        }
        assert("Material"@ =~= seq!['M', 'a', 't', 'e', 'r', 'i', 'a', 'l']);
        "Material"
    }
}

/// The concatenation of the given strings.
pub open spec fn concat_all(data: Seq<Seq<char>>) -> Seq<char>
    decreases data.len(),
{
    if data.len() == 0 {
        Seq::empty()
    } else {
        concat_all(data.drop_last()) + data.last()
    }
}

/// The line that the guest's `print(...)` writes to the log: its arguments
/// one after another, with nothing between them.
pub fn lua_print(data: Vec<&String>) -> (r: String)
    ensures
        r@ == concat_all(data@.map_values(|s: &String| s@)),
{
    let mut output = String::new();
    let mut i: usize = 0;
    while i < data.len()
        invariant
            i <= data@.len(),
            output@ == concat_all(data@.take(i as int).map_values(|s: &String| s@)),
        decreases data@.len() - i,
    {
        let ghost before = output@;
        output.append(data[i].as_str());
        assert(data@.take(i + 1).map_values(|s: &String| s@).drop_last() =~= data@.take(i as int).map_values(|s: &String| s@));
        i = i + 1;
    }
    assert(data@.take(i as int) =~= data@);
    output
}

} // verus!
