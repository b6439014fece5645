//! Immutable, shareable geometry: a vertex sequence, an optional index
//! sequence and a topology, validated once by a builder.
use std::rc::Rc;
use vstd::prelude::*;

use crate::bits::{MINUS_ONE, ONE, ZERO};
use crate::vertex::VertexType;

verus! {

/// How consecutive vertices (or indices) form primitives.
#[derive(Copy, Clone, Debug, PartialEq, Eq, Structural)]
pub enum Topology {
    /// Every three consecutive vertices form one triangle.
    Triangle,
}

/// Why a mesh could not be built.
#[derive(Copy, Clone, Debug, PartialEq, Eq, Structural)]
pub enum BuildError {
    /// The vertex sequence is empty.
    NoVertices,
    /// The index at `position` names no vertex.
    IndexOutOfRange { position: usize, index: u32 },
    /// The graphics resource could not be allocated.
    Allocation,
}

/// The mathematical content of a mesh.
pub ghost struct MeshGeometry {
    pub vertices: Seq<VertexType>,
    pub indices: Option<Seq<u32>>,
    pub topology: Topology,
}

/// The geometry that a mesh may hold: at least one vertex, and every index
/// names a vertex.
pub open spec fn valid_geometry(g: MeshGeometry) -> bool {
    &&& g.vertices.len() > 0
    &&& g.indices matches Some(ix) ==> all_indices_below(ix, g.vertices.len() as int)
}

/// Every index names one of `n` vertices.
pub open spec fn all_indices_below(ix: Seq<u32>, n: int) -> bool {
    forall|i: int| 0 <= i < ix.len() ==> (ix[i] as int) < n
}

/// `e` is the error that invalid parts give: `NoVertices` for an empty
/// vertex sequence, else `IndexOutOfRange` for the first index that names no
/// vertex.
pub open spec fn is_build_error(vertices: Seq<VertexType>, indices: Option<Seq<u32>>, e: BuildError) -> bool {
    if vertices.len() == 0 {
        e == BuildError::NoVertices
    } else {
        &&& indices matches Some(ix)
        &&& e matches BuildError::IndexOutOfRange { position, index }
        &&& position < ix.len()
        &&& ix[position as int] == index
        &&& index as int >= vertices.len()
        &&& all_indices_below(ix.take(position as int), vertices.len() as int)
    }
}

/// The number of triangles: a third of the vertices when unindexed (an
/// empty index sequence counts as none), a third of the indices otherwise
/// (a trailing incomplete triangle is not counted).
pub open spec fn triangle_count_of(g: MeshGeometry) -> nat {
    match g.indices {
        Some(ix) if ix.len() > 0 => ix.len() / 3,
        _ => g.vertices.len() / 3,
    }
}

struct MeshData {
    vertices: Vec<VertexType>,
    indices: Option<Vec<u32>>,
    topology: Topology,
}

/// Geometry that has passed validation. Cloning shares it.
pub struct Mesh {
    data: Rc<MeshData>,
}

impl View for Mesh {
    type V = MeshGeometry;

    closed spec fn view(&self) -> MeshGeometry {
        MeshGeometry {
            vertices: self.data.vertices@,
            indices: match self.data.indices {
                None => None,
                Some(ix) => Some(ix@),
            },
            topology: self.data.topology,
        }
    }
}

impl Mesh {
    #[verifier::type_invariant]
    closed spec fn inv(self) -> bool {
        valid_geometry(self@)
    }

    /// A second handle on the same geometry.
    pub fn share(&self) -> (r: Mesh)
        ensures
            r@ == self@,
    {
        proof {
            use_type_invariant(self);
        }
        Mesh { data: Rc::clone(&self.data) }
    }

    pub fn vertices(&self) -> (r: &Vec<VertexType>)
        ensures
            r@ == self@.vertices,
    {
        &self.data.vertices
    }

    pub fn indices(&self) -> (r: Option<&Vec<u32>>)
        ensures
            match r {
                Some(ix) => self@.indices == Some(ix@),
                None => self@.indices is None,
            },
    {
        match &self.data.indices {
            Some(ix) => Some(ix),
            None => None,
        }
    }

    pub fn topology(&self) -> (r: Topology)
        ensures
            r == self@.topology,
    {
        self.data.topology
    }

    pub fn vert_count(&self) -> (r: usize)
        ensures
            r == self@.vertices.len(),
    {
        self.data.vertices.len()
    }

    pub fn tri_count(&self) -> (r: usize)
        ensures
            r == triangle_count_of(self@),
    {
        match &self.data.indices {
            Some(ix) if ix.len() > 0 => ix.len() / 3,
            _ => self.data.vertices.len() / 3,
        }
    }
}

/// Collects the parts of a mesh and validates them in `build`.
pub struct MeshBuilder {
    pub vertices: Vec<VertexType>,
    pub indices: Option<Vec<u32>>,
    pub topology: Topology,
}

/// The view of an optional index vector.
pub open spec fn indices_view(indices: Option<Vec<u32>>) -> Option<Seq<u32>> {
    match indices {
        None => None,
        Some(ix) => Some(ix@),
    }
}

impl MeshBuilder {
    /// The geometry that the builder holds.
    pub open spec fn geometry(&self) -> MeshGeometry {
        MeshGeometry {
            vertices: self.vertices@,
            indices: indices_view(self.indices),
            topology: self.topology,
        }
    }

    /// No vertices, no indices, triangles.
    pub fn new() -> (r: MeshBuilder)
        ensures
            r.vertices@.len() == 0,
            r.indices is None,
            r.topology == Topology::Triangle,
    {
        MeshBuilder { vertices: Vec::new(), indices: None, topology: Topology::Triangle }
    }

    pub fn with_vertices(self, vertices: Vec<VertexType>) -> (r: MeshBuilder)
        ensures
            r.vertices@ == vertices@,
            r.indices == self.indices,
            r.topology == self.topology,
    {
        MeshBuilder { vertices, ..self }
    }

    pub fn with_indices(self, indices: Vec<u32>) -> (r: MeshBuilder)
        ensures
            r.vertices == self.vertices,
            r.indices == Some(indices),
            r.topology == self.topology,
    {
        MeshBuilder { indices: Some(indices), ..self }
    }

    pub fn with_topology(self, topology: Topology) -> (r: MeshBuilder)
        ensures
            r.vertices == self.vertices,
            r.indices == self.indices,
            r.topology == topology,
    {
        MeshBuilder { topology, ..self }
    }

    /// Validates the parts: fails on an empty vertex sequence, and on the
    /// first index that names no vertex.
    pub fn build(self) -> (r: Result<Mesh, BuildError>)
        ensures
            r is Ok <==> valid_geometry(self.geometry()),
            r matches Ok(m) ==> m@ == self.geometry(),
            r matches Err(e) ==> is_build_error(self.vertices@, indices_view(self.indices), e),
    {
        let n = self.vertices.len();
        if n == 0 {
            return Err(BuildError::NoVertices);
        }
        if let Some(ix) = &self.indices {
            let mut i: usize = 0;
            while i < ix.len()
                invariant
                    i <= ix@.len(),
                    self.indices == Some(*ix),
                    n == self.vertices@.len(),
                    n > 0,
                    all_indices_below(ix@.take(i as int), n as int),
                decreases ix@.len() - i,
            {
                if ix[i] as usize >= n {
                    assert(!all_indices_below(ix@, n as int));
                    return Err(BuildError::IndexOutOfRange { position: i, index: ix[i] });
                }
                assert(ix@.take(i + 1) =~= ix@.take(i as int).push(ix@[i as int]));
                i = i + 1;
            }
            assert(ix@.take(i as int) =~= ix@);
        }
        let data = MeshData { vertices: self.vertices, indices: self.indices, topology: self.topology };
        let m = Mesh { data: Rc::new(data) };
        Ok(m)
    }
}

/// The three corners of the reference triangle, facing the viewer: red at
/// (-1, -1, 0), green at (1, -1, 0), blue at (0, 1, 0).
pub open spec fn triangle_vertices() -> Seq<VertexType> {
    seq![
        VertexType {
            position: [MINUS_ONE, MINUS_ONE, ZERO],
            color: [ONE, ZERO, ZERO],
            uv: [ZERO, ZERO],
            normal: [ZERO, ZERO, MINUS_ONE],
            tangent: [ONE, ZERO, ZERO, ONE],
        },
        VertexType {
            position: [ONE, MINUS_ONE, ZERO],
            color: [ZERO, ONE, ZERO],
            uv: [ONE, ZERO],
            normal: [ZERO, ZERO, MINUS_ONE],
            tangent: [ONE, ZERO, ZERO, ONE],
        },
        VertexType {
            position: [ZERO, ONE, ZERO],
            color: [ZERO, ZERO, ONE],
            uv: [ZERO, ONE],
            normal: [ZERO, ZERO, MINUS_ONE],
            tangent: [ONE, ZERO, ZERO, ONE],
        },
    ]
}

/// The reference triangle as an unindexed mesh.
pub fn create_triangle() -> (r: Mesh)
    ensures
        r@ == (MeshGeometry { vertices: triangle_vertices(), indices: None, topology: Topology::Triangle }),
{
    let mut vertices: Vec<VertexType> = Vec::new();
    vertices.push(VertexType {
        position: [MINUS_ONE, MINUS_ONE, ZERO],
        color: [ONE, ZERO, ZERO],
        uv: [ZERO, ZERO],
        normal: [ZERO, ZERO, MINUS_ONE],
        tangent: [ONE, ZERO, ZERO, ONE],
    });
    vertices.push(VertexType {
        position: [ONE, MINUS_ONE, ZERO],
        color: [ZERO, ONE, ZERO],
        uv: [ONE, ZERO],
        normal: [ZERO, ZERO, MINUS_ONE],
        tangent: [ONE, ZERO, ZERO, ONE],
    });
    vertices.push(VertexType {
        position: [ZERO, ONE, ZERO],
        color: [ZERO, ZERO, ONE],
        uv: [ZERO, ONE],
        normal: [ZERO, ZERO, MINUS_ONE],
        tangent: [ONE, ZERO, ZERO, ONE],
    });
    assert(vertices@ =~= triangle_vertices());
    let data = MeshData { vertices, indices: None, topology: Topology::Triangle };
    Mesh { data: Rc::new(data) }
}

} // verus!
