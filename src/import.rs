//! Assembly of meshes from the attribute streams that a decoder of an
//! interchange format reads out of a byte buffer.
//!
//! Per-attribute policy: positions, normals and indices are required; a
//! missing color stream makes every vertex white, a missing
//! texture-coordinate stream puts every vertex at (0, 0) and a missing
//! tangent stream gives every vertex the tangent (1, 0, 0, 1). A stream that
//! is present holds exactly one entry per position.
use vstd::prelude::*;
use vstd::string::*;

use crate::math::{Transform, is_identity};
use crate::mesh::{BuildError, Mesh, MeshBuilder, MeshGeometry, Topology, all_indices_below, is_build_error, valid_geometry};
use crate::vertex::{DEFAULT_COLOR, DEFAULT_TANGENT, DEFAULT_UV, VertexSemantics, VertexType};

verus! {

/// The interchange formats that a byte buffer may be declared to hold.
#[derive(Copy, Clone, Debug, PartialEq, Eq, Structural)]
pub enum MeshByteFormat {
    GLB,
    GLTF,
    Other,
}

/// The format that a lower-case tag names.
pub open spec fn format_named(tag: Seq<char>) -> MeshByteFormat {
    if tag == seq!['g', 'l', 't', 'f'] {
        MeshByteFormat::GLTF
    } else if tag == seq!['g', 'l', 'b'] {
        MeshByteFormat::GLB
    } else {
        MeshByteFormat::Other
    }
}

/// What `str::to_lowercase` returns for the given characters.
pub uninterp spec fn lower_of(s: Seq<char>) -> Seq<char>;

/// Relies on `str::to_lowercase`: the lower-case form of a string, which
/// depends on its characters alone.
#[verifier::external_body]
fn lowercase(s: &str) -> (r: String)
    ensures
        r@ == lower_of(s@),
{
    s.to_lowercase()
}

pub(crate) fn chars_equal(s: &str, expected: &str) -> (r: bool)
    ensures
        r == (s@ == expected@),
{
    let n = s.unicode_len();
    if n != expected.unicode_len() {
        return false;
    }
    let mut i: usize = 0;
    while i < n
        invariant
            n == s@.len(),
            n == expected@.len(),
            i <= n,
            s@.take(i as int) == expected@.take(i as int),
        decreases n - i,
    {
        if s.get_char(i) != expected.get_char(i) {
            return false;
        }
        assert(s@.take(i + 1) =~= s@.take(i as int).push(s@[i as int]));
        assert(expected@.take(i + 1) =~= expected@.take(i as int).push(expected@[i as int]));
        i = i + 1;
    }
    assert(s@ =~= s@.take(i as int));
    assert(expected@ =~= expected@.take(i as int));
    true
}

impl MeshByteFormat {
    /// The format that a tag names, ignoring case: "gltf" or "glb", any
    /// other tag naming no supported format.
    pub fn from_string(format: String) -> (r: MeshByteFormat)
        ensures
            r == format_named(lower_of(format@)),
    {
        let lower = lowercase(format.as_str());
        MeshByteFormat::from_lowercase(lower.as_str())
    }

    /// The format that a tag already in lower case names.
    pub fn from_lowercase(tag: &str) -> (r: MeshByteFormat)
        ensures
            r == format_named(tag@),
    {
        proof {
            reveal_strlit("gltf");
            reveal_strlit("glb");
            assert("gltf"@ =~= seq!['g', 'l', 't', 'f']);
            assert("glb"@ =~= seq!['g', 'l', 'b']);
        }
        if chars_equal(tag, "gltf") {
            MeshByteFormat::GLTF
        } else if chars_equal(tag, "glb") {
            MeshByteFormat::GLB
        } else {
            MeshByteFormat::Other
        }
    }

    /// Meshes can be imported from buffers of this format; `Other` is
    /// refused with `UnsupportedFormat`.
    pub fn check_supported(&self) -> (r: Result<(), ImportError>)
        ensures
            r is Ok <==> !(*self is Other),
            r is Err ==> r == Err::<(), ImportError>(ImportError::UnsupportedFormat),
    {
        match self {
            MeshByteFormat::Other => Err(ImportError::UnsupportedFormat),
            _ => Ok(()),
        }
    }
}

/// Why an import failed.
#[derive(Copy, Clone, Debug, PartialEq, Eq, Structural)]
pub enum ImportError {
    /// The format tag names no format that can be imported.
    UnsupportedFormat,
    /// The decoder could not read the buffer.
    Malformed,
    /// A required attribute stream is absent.
    MissingAttribute(VertexSemantics),
    /// The index stream is absent.
    MissingIndices,
    /// An attribute stream does not hold one entry per position.
    StreamLength(VertexSemantics),
    /// An index, offset by the vertices of earlier primitives of its mesh,
    /// does not fit in 32 bits.
    IndexOverflow,
    /// The assembled geometry did not pass the mesh builder.
    Build(BuildError),
}

/// The streams of one primitive (one part of a mesh), as a decoder read them.
pub struct PrimitiveStreams {
    pub positions: Option<Vec<[u32; 3]>>,
    pub colors: Option<Vec<[u32; 3]>>,
    pub uvs: Option<Vec<[u32; 2]>>,
    pub normals: Option<Vec<[u32; 3]>>,
    pub tangents: Option<Vec<[u32; 4]>>,
    pub indices: Option<Vec<u32>>,
}

/// A present stream whose length is not `n`.
pub open spec fn wrong_length<T>(s: Option<Vec<T>>, n: nat) -> bool {
    s matches Some(v) && v@.len() != n
}

/// The error of a primitive's streams taken alone, if any: required streams
/// are looked for in the order positions, normals, indices; then
/// lengths in the order colors, texture coordinates, normals, tangents.
pub open spec fn primitive_error(p: PrimitiveStreams) -> Option<ImportError> {
    if p.positions is None {
        Some(ImportError::MissingAttribute(VertexSemantics::Position))
    } else if p.normals is None {
        Some(ImportError::MissingAttribute(VertexSemantics::Normal))
    } else if p.indices is None {
        Some(ImportError::MissingIndices)
    } else {
        let n = p.positions->0@.len();
        if wrong_length(p.colors, n) {
            Some(ImportError::StreamLength(VertexSemantics::Color))
        } else if wrong_length(p.uvs, n) {
            Some(ImportError::StreamLength(VertexSemantics::UV))
        } else if wrong_length(p.normals, n) {
            Some(ImportError::StreamLength(VertexSemantics::Normal))
        } else if wrong_length(p.tangents, n) {
            Some(ImportError::StreamLength(VertexSemantics::Tangent))
        } else {
            None
        }
    }
}

/// The `i`-th vertex of a primitive whose streams are complete.
pub open spec fn vertex_at(p: PrimitiveStreams, i: int) -> VertexType {
    VertexType {
        position: p.positions->0@[i],
        color: match p.colors {
            Some(c) => c@[i],
            None => DEFAULT_COLOR,
        },
        uv: match p.uvs {
            Some(t) => t@[i],
            None => DEFAULT_UV,
        },
        normal: p.normals->0@[i],
        tangent: match p.tangents {
            Some(t) => t@[i],
            None => DEFAULT_TANGENT,
        },
    }
}

/// The vertices of a primitive whose streams are complete.
pub open spec fn primitive_vertices(p: PrimitiveStreams) -> Seq<VertexType> {
    Seq::new(p.positions->0@.len(), |i: int| vertex_at(p, i))
}

/// Some index of `ix`, offset by `base`, does not fit in 32 bits.
pub open spec fn offset_overflows(ix: Seq<u32>, base: int) -> bool {
    exists|i: int| 0 <= i < ix.len() && ix[i] + base > u32::MAX
}

/// The indices of `ix`, each offset by `base`.
pub open spec fn offset_indices(ix: Seq<u32>, base: int) -> Seq<u32> {
    Seq::new(ix.len(), |i: int| (ix[i] + base) as u32)
}

/// The vertices of a mesh: those of its primitives, one after another.
pub open spec fn merged_vertices(prims: Seq<PrimitiveStreams>) -> Seq<VertexType>
    decreases prims.len(),
{
    if prims.len() == 0 {
        Seq::empty()
    } else {
        merged_vertices(prims.drop_last()) + primitive_vertices(prims.last())
    }
}

/// The indices of a mesh: those of each primitive, offset by the number of
/// vertices of the primitives before it.
pub open spec fn merged_indices(prims: Seq<PrimitiveStreams>) -> Seq<u32>
    decreases prims.len(),
{
    if prims.len() == 0 {
        Seq::empty()
    } else {
        merged_indices(prims.drop_last()) + offset_indices(
            prims.last().indices->0@,
            merged_vertices(prims.drop_last()).len() as int,
        )
    }
}

/// The first error among a mesh's primitives, in their order, if any.
pub open spec fn streams_error(prims: Seq<PrimitiveStreams>) -> Option<ImportError>
    decreases prims.len(),
{
    if prims.len() == 0 {
        None
    } else {
        match streams_error(prims.drop_last()) {
            Some(e) => Some(e),
            None => match primitive_error(prims.last()) {
                Some(e) => Some(e),
                None => if offset_overflows(
                    prims.last().indices->0@,
                    merged_vertices(prims.drop_last()).len() as int,
                ) {
                    Some(ImportError::IndexOverflow)
                } else {
                    None
                },
            },
        }
    }
}

/// The geometry of a mesh whose streams have no error.
pub open spec fn merged_geometry(prims: Seq<PrimitiveStreams>) -> MeshGeometry {
    MeshGeometry {
        vertices: merged_vertices(prims),
        indices: Some(merged_indices(prims)),
        topology: Topology::Triangle,
    }
}

/// What importing one mesh gives: the first stream error, else the merged
/// geometry if it is valid, else the builder's error on it.
pub open spec fn mesh_import_ok(prims: Seq<PrimitiveStreams>, r: Result<Mesh, ImportError>) -> bool {
    match streams_error(prims) {
        Some(e) => r == Err::<Mesh, ImportError>(e),
        None => {
            let g = merged_geometry(prims);
            match r {
                Ok(m) => valid_geometry(g) && m@ == g,
                Err(ImportError::Build(b)) => !valid_geometry(g) && is_build_error(g.vertices, g.indices, b),
                Err(_) => false,
            }
        },
    }
}

fn stream_len_differs<T>(s: &Option<Vec<T>>, n: usize) -> (r: bool)
    ensures
        r == wrong_length(*s, n as nat),
{
    match s {
        Some(v) => v.len() != n,
        None => false,
    }
}

/// The error of a primitive's streams taken alone, if any.
pub fn check_primitive(p: &PrimitiveStreams) -> (r: Option<ImportError>)
    ensures
        r == primitive_error(*p),
{
    let n = match &p.positions {
        None => {
            return Some(ImportError::MissingAttribute(VertexSemantics::Position));
        },
        Some(v) => v.len(),
    };
    if p.normals.is_none() {
        return Some(ImportError::MissingAttribute(VertexSemantics::Normal));
    }
    if p.indices.is_none() {
        return Some(ImportError::MissingIndices);
    }
    if stream_len_differs(&p.colors, n) {
        Some(ImportError::StreamLength(VertexSemantics::Color))
    } else if stream_len_differs(&p.uvs, n) {
        Some(ImportError::StreamLength(VertexSemantics::UV))
    } else if stream_len_differs(&p.normals, n) {
        Some(ImportError::StreamLength(VertexSemantics::Normal))
    } else if stream_len_differs(&p.tangents, n) {
        Some(ImportError::StreamLength(VertexSemantics::Tangent))
    } else {
        None
    }
}

/// Appends the vertices of a primitive whose streams have no error, and its
/// indices offset by the number of vertices already there.
fn append_primitive(p: &PrimitiveStreams, vertices: &mut Vec<VertexType>, indices: &mut Vec<u32>) -> (r: Result<(), ImportError>)
    requires
        primitive_error(*p) is None,
    ensures
        r is Err <==> offset_overflows(p.indices->0@, old(vertices)@.len() as int),
        r is Err ==> r == Err::<(), ImportError>(ImportError::IndexOverflow),
        r is Ok ==> final(vertices)@ == old(vertices)@ + primitive_vertices(*p),
        r is Ok ==> final(indices)@ == old(indices)@ + offset_indices(p.indices->0@, old(vertices)@.len() as int),
{
    let base = vertices.len();
    let ghost old_vertices = vertices@;
    let ghost old_indices = indices@;
    let ix = p.indices.as_ref().unwrap();
    let mut j: usize = 0;
    while j < ix.len()
        invariant
            p.indices == Some(*ix),
            base == old_vertices.len(),
            j <= ix@.len(),
            vertices@ == old_vertices,
            indices@ == old_indices + offset_indices(ix@.take(j as int), base as int),
            forall|k: int| 0 <= k < j ==> ix@[k] + base <= u32::MAX,
        decreases ix@.len() - j,
    {
        if base > u32::MAX as usize || ix[j] as u64 + base as u64 > u32::MAX as u64 {
            assert(ix@[j as int] + base > u32::MAX);
            return Err(ImportError::IndexOverflow);
        }
        indices.push((ix[j] as u64 + base as u64) as u32);
        assert(offset_indices(ix@.take(j + 1), base as int) =~= offset_indices(ix@.take(j as int), base as int).push((ix@[j as int] + base) as u32));
        j = j + 1;
    }
    assert(ix@.take(j as int) =~= ix@);
    let positions = p.positions.as_ref().unwrap();
    let normals = p.normals.as_ref().unwrap();
    let n = positions.len();
    let mut i: usize = 0;
    while i < n
        invariant
            p.positions == Some(*positions),
            p.normals == Some(*normals),
            primitive_error(*p) is None,
            n == positions@.len(),
            i <= n,
            vertices@ == old_vertices + primitive_vertices(*p).take(i as int),
        decreases n - i,
    {
        let color = match &p.colors {
            Some(c) => c[i],
            None => DEFAULT_COLOR,
        };
        let uv = match &p.uvs {
            Some(t) => t[i],
            None => DEFAULT_UV,
        };
        let tangent = match &p.tangents {
            Some(t) => t[i],
            None => DEFAULT_TANGENT,
        };
        let v = VertexType { position: positions[i], color, uv, normal: normals[i], tangent };
        assert(v == vertex_at(*p, i as int));
        vertices.push(v);
        assert(primitive_vertices(*p).take(i + 1) =~= primitive_vertices(*p).take(i as int).push(v));
        i = i + 1;
    }
    assert(primitive_vertices(*p).take(i as int) =~= primitive_vertices(*p));
    Ok(())
}

/// Assembles one mesh from the streams of its primitives.
pub fn import_mesh(prims: &Vec<PrimitiveStreams>) -> (r: Result<Mesh, ImportError>)
    ensures
        mesh_import_ok(prims@, r),
{
    let mut vertices: Vec<VertexType> = Vec::new();
    let mut indices: Vec<u32> = Vec::new();
    let mut k: usize = 0;
    while k < prims.len()
        invariant
            k <= prims@.len(),
            streams_error(prims@.take(k as int)) is None,
            vertices@ == merged_vertices(prims@.take(k as int)),
            indices@ == merged_indices(prims@.take(k as int)),
        decreases prims@.len() - k,
    {
        let ghost done = prims@.take(k as int);
        assert(prims@.take(k + 1).drop_last() =~= done);
        assert(prims@.take(k + 1).last() == prims@[k as int]);
        match check_primitive(&prims[k]) {
            Some(e) => {
                proof {
                    lemma_error_persists(prims@, k as int + 1);
                }
                return Err(e);
            },
            None => {},
        }
        match append_primitive(&prims[k], &mut vertices, &mut indices) {
            Err(e) => {
                proof {
                    lemma_error_persists(prims@, k as int + 1);
                }
                return Err(e);
            },
            Ok(()) => {},
        }
        k = k + 1;
    }
    assert(prims@.take(k as int) =~= prims@);
    let built = MeshBuilder::new().with_vertices(vertices).with_indices(indices).build();
    match built {
        Ok(m) => Ok(m),
        Err(b) => Err(ImportError::Build(b)),
    }
}

/// Importing the mesh with these primitives succeeds.
pub open spec fn mesh_import_succeeds(prims: Seq<PrimitiveStreams>) -> bool {
    streams_error(prims) is None && valid_geometry(merged_geometry(prims))
}

/// What importing every mesh of a buffer gives: all of them, each with the
/// identity transform, if every one imports; else the error of the first
/// one that fails.
pub open spec fn meshes_import_ok(meshes: Seq<Vec<PrimitiveStreams>>, r: Result<Vec<(Mesh, Transform)>, ImportError>) -> bool {
    &&& r is Ok <==> forall|i: int| 0 <= i < meshes.len() ==> mesh_import_succeeds(#[trigger] meshes[i]@)
    &&& r matches Ok(v) ==> {
        &&& v@.len() == meshes.len()
        &&& forall|i: int| 0 <= i < v@.len() ==> mesh_import_ok(meshes[i]@, Ok(#[trigger] v@[i].0))
        &&& forall|i: int| 0 <= i < v@.len() ==> is_identity(#[trigger] v@[i].1)
    }
    &&& r matches Err(e) ==> exists|k: int| {
        &&& 0 <= k < meshes.len()
        &&& mesh_import_ok(#[trigger] meshes[k]@, Err(e))
        &&& forall|j: int| 0 <= j < k ==> mesh_import_succeeds(#[trigger] meshes[j]@)
    }
}

/// Assembles every mesh of a decoded buffer, each paired with the transform
/// of an object at the origin, unrotated, at unit scale. The first mesh that
/// fails decides the error.
pub fn meshes_from_streams(meshes: &Vec<Vec<PrimitiveStreams>>) -> (r: Result<Vec<(Mesh, Transform)>, ImportError>)
    ensures
        meshes_import_ok(meshes@, r),
{
    let mut result: Vec<(Mesh, Transform)> = Vec::new();
    let mut k: usize = 0;
    while k < meshes.len()
        invariant
            k <= meshes@.len(),
            result@.len() == k,
            forall|j: int| 0 <= j < k ==> mesh_import_succeeds(#[trigger] meshes@[j]@),
            forall|j: int| 0 <= j < k ==> mesh_import_ok(meshes@[j]@, Ok(#[trigger] result@[j].0)),
            forall|j: int| 0 <= j < k ==> is_identity(#[trigger] result@[j].1),
        decreases meshes@.len() - k,
    {
        match import_mesh(&meshes[k]) {
            Ok(m) => {
                result.push((m, Transform::identity()));
            },
            Err(e) => {
                assert(mesh_import_ok(meshes@[k as int]@, Err(e)));
                assert(!mesh_import_succeeds(meshes@[k as int]@));
                return Err(e);
            },
        }
        k = k + 1;
    }
    Ok(result)
}

/// A primitive whose streams are complete and consistent: positions,
/// normals and indices present, every present stream of the positions'
/// length, and every index naming one of the primitive's own vertices.
pub open spec fn primitive_well_formed(p: PrimitiveStreams) -> bool {
    &&& primitive_error(p) is None
    &&& all_indices_below(p.indices->0@, p.positions->0@.len() as int)
}

/// The primitive at `k` is the first to go wrong, and it goes wrong by
/// lacking its normal stream: the primitives before it are well formed and
/// have at most 2^32 vertices in all, and it has positions but no normals.
pub open spec fn first_lacks_normals(prims: Seq<PrimitiveStreams>, k: int) -> bool {
    &&& 0 <= k < prims.len()
    &&& forall|j: int| 0 <= j < k ==> primitive_well_formed(#[trigger] prims[j])
    &&& merged_vertices(prims.take(k)).len() <= u32::MAX + 1
    &&& prims[k].positions is Some
    &&& prims[k].normals is None
}

proof fn lemma_first_lacks_normals(prims: Seq<PrimitiveStreams>, k: int)
    requires
        first_lacks_normals(prims, k),
    ensures
        streams_error(prims) == Some(ImportError::MissingAttribute(VertexSemantics::Normal)),
{
    let front = prims.take(k);
    assert forall|j: int| 0 <= j < front.len() implies primitive_well_formed(#[trigger] front[j]) by {
        assert(front[j] == prims[j]);
    }
    lemma_well_formed_merge(front);
    assert(prims.take(k + 1).drop_last() =~= front);
    assert(prims.take(k + 1).last() == prims[k]);
    assert(streams_error(prims.take(k + 1)) == Some(ImportError::MissingAttribute(VertexSemantics::Normal)));
    lemma_error_persists(prims, k + 1);
}

/// Importing a buffer in which some mesh lacks a normal stream fails with
/// the error that names the normal attribute, where every mesh either
/// imports or goes wrong first by lacking normals.
pub proof fn lemma_missing_normals_fail(meshes: Seq<Vec<PrimitiveStreams>>, r: Result<Vec<(Mesh, Transform)>, ImportError>)
    requires
        meshes_import_ok(meshes, r),
        exists|i: int, k: int| 0 <= i < meshes.len() && #[trigger] first_lacks_normals(meshes[i]@, k),
        forall|i: int| 0 <= i < meshes.len() ==> mesh_import_succeeds(#[trigger] meshes[i]@) || exists|k: int| first_lacks_normals(meshes[i]@, k),
    ensures
        r == Err::<Vec<(Mesh, Transform)>, ImportError>(ImportError::MissingAttribute(VertexSemantics::Normal)),
{
    let (i, k) = choose|i: int, k: int| 0 <= i < meshes.len() && #[trigger] first_lacks_normals(meshes[i]@, k);
    lemma_first_lacks_normals(meshes[i]@, k);
    assert(!mesh_import_succeeds(meshes[i]@));
    match r {
        Ok(_) => {},
        Err(e) => {
            let m = choose|m: int| {
                &&& 0 <= m < meshes.len()
                &&& mesh_import_ok(#[trigger] meshes[m]@, Err(e))
                &&& forall|j: int| 0 <= j < m ==> mesh_import_succeeds(#[trigger] meshes[j]@)
            };
            if !mesh_import_succeeds(meshes[m]@) {
                let km = choose|km: int| first_lacks_normals(meshes[m]@, km);
                lemma_first_lacks_normals(meshes[m]@, km);
            } else {
                assert(streams_error(meshes[m]@) is None);
            }
        },
    }
}

/// The number of vertices of a mesh is the sum of its primitives' position
/// counts, and grows with each primitive.
proof fn lemma_merged_len(prims: Seq<PrimitiveStreams>, k: int)
    requires
        0 <= k <= prims.len(),
    ensures
        merged_vertices(prims.take(k)).len() <= merged_vertices(prims).len(),
    decreases prims.len() - k,
{
    if k < prims.len() {
        lemma_merged_len(prims, k + 1);
        assert(prims.take(k + 1).drop_last() =~= prims.take(k));
    } else {
        assert(prims.take(k) =~= prims);
    }
}

/// For well-formed primitives whose vertices number at most 2^32 in all,
/// the merged streams have no error and every merged index names a vertex.
proof fn lemma_well_formed_merge(prims: Seq<PrimitiveStreams>)
    requires
        forall|k: int| 0 <= k < prims.len() ==> primitive_well_formed(#[trigger] prims[k]),
        merged_vertices(prims).len() <= u32::MAX + 1,
    ensures
        streams_error(prims) is None,
        all_indices_below(merged_indices(prims), merged_vertices(prims).len() as int),
    decreases prims.len(),
{
    if prims.len() > 0 {
        let rest = prims.drop_last();
        let p = prims.last();
        assert(p == prims[prims.len() - 1]);
        assert forall|k: int| 0 <= k < rest.len() implies primitive_well_formed(#[trigger] rest[k]) by {
            assert(rest[k] == prims[k]);
        }
        lemma_merged_len(prims, prims.len() - 1);
        assert(prims.take(prims.len() - 1) =~= rest);
        lemma_well_formed_merge(rest);
        let base = merged_vertices(rest).len() as int;
        let n = p.positions->0@.len() as int;
        let ix = p.indices->0@;
        assert(primitive_vertices(p).len() == n);
        assert(merged_vertices(prims).len() == base + n);
        assert(!offset_overflows(ix, base)) by {
            assert forall|i: int| 0 <= i < ix.len() implies ix[i] + base <= u32::MAX by {
                assert((ix[i] as int) < n);
            }
        }
        let all = merged_indices(prims);
        assert forall|i: int| 0 <= i < all.len() implies (all[i] as int) < base + n by {
            let front = merged_indices(rest);
            if i >= front.len() {
                let j = i - front.len();
                assert(all[i] == offset_indices(ix, base)[j]);
                assert((ix[j] as int) < n);
            } else {
                assert(all[i] == front[i]);
            }
        }
    }
}

/// A buffer whose meshes have only well-formed primitives, none with a
/// color stream, imports, and every vertex of every mesh is white. (Meshes
/// with no vertex, or with more than 2^32 vertices, whose indices cannot be
/// offset, are left out.)
pub proof fn lemma_missing_colors_default_to_white(meshes: Seq<Vec<PrimitiveStreams>>, r: Result<Vec<(Mesh, Transform)>, ImportError>)
    requires
        meshes_import_ok(meshes, r),
        forall|i: int, k: int| 0 <= i < meshes.len() && 0 <= k < meshes[i]@.len() ==> primitive_well_formed(#[trigger] meshes[i]@[k]) && meshes[i]@[k].colors is None,
        forall|i: int| 0 <= i < meshes.len() ==> 0 < #[trigger] merged_vertices(meshes[i]@).len() <= u32::MAX + 1,
    ensures
        r is Ok,
        forall|i: int, j: int| 0 <= i < r->Ok_0@.len() && 0 <= j < r->Ok_0@[i].0@.vertices.len() ==> (#[trigger] r->Ok_0@[i].0@.vertices[j]).color == DEFAULT_COLOR,
{
    assert forall|i: int| 0 <= i < meshes.len() implies mesh_import_succeeds(#[trigger] meshes[i]@) by {
        let prims = meshes[i]@;
        assert forall|k: int| 0 <= k < prims.len() implies primitive_well_formed(#[trigger] prims[k]) by {
            assert(primitive_well_formed(meshes[i]@[k]));
        }
        assert(0 < merged_vertices(prims).len() <= u32::MAX + 1);
        lemma_well_formed_merge(prims);
    }
    let v = r->Ok_0;
    assert forall|i: int, j: int| 0 <= i < v@.len() && 0 <= j < v@[i].0@.vertices.len() implies (#[trigger] v@[i].0@.vertices[j]).color == DEFAULT_COLOR by {
        let prims = meshes[i]@;
        assert forall|k: int| 0 <= k < prims.len() implies (#[trigger] prims[k]).colors is None by {
            assert(primitive_well_formed(meshes[i]@[k]) && meshes[i]@[k].colors is None);
        }
        lemma_merged_white(prims);
        assert(mesh_import_ok(meshes[i]@, Ok(v@[i].0)));
    }
}

proof fn lemma_merged_white(prims: Seq<PrimitiveStreams>)
    requires
        forall|k: int| 0 <= k < prims.len() ==> (#[trigger] prims[k]).colors is None,
    ensures
        forall|i: int| 0 <= i < merged_vertices(prims).len() ==> (#[trigger] merged_vertices(prims)[i]).color == DEFAULT_COLOR,
    decreases prims.len(),
{
    if prims.len() > 0 {
        let rest = prims.drop_last();
        assert forall|k: int| 0 <= k < rest.len() implies (#[trigger] rest[k]).colors is None by {
            assert(rest[k] == prims[k]);
        }
        lemma_merged_white(rest);
        assert(prims.last() == prims[prims.len() - 1]);
        let front = merged_vertices(rest);
        let all = merged_vertices(prims);
        assert forall|i: int| 0 <= i < all.len() implies (#[trigger] all[i]).color == DEFAULT_COLOR by {
            if i >= front.len() {
                assert(all[i] == primitive_vertices(prims.last())[i - front.len()]);
            } else {
                assert(all[i] == front[i]);
            }
        }
    }
}

/// An error among the first `k` primitives is the error of the whole mesh.
proof fn lemma_error_persists(prims: Seq<PrimitiveStreams>, k: int)
    requires
        0 <= k <= prims.len(),
        streams_error(prims.take(k)) is Some,
    ensures
        streams_error(prims) == streams_error(prims.take(k)),
    decreases prims.len() - k,
{
    if k < prims.len() {
        assert(prims.take(k + 1).drop_last() =~= prims.take(k));
        assert(streams_error(prims.take(k + 1)) == streams_error(prims.take(k)));
        lemma_error_persists(prims, k + 1);
    } else {
        assert(prims.take(k) =~= prims);
    }
}

} // verus!
