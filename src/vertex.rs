//! The vertex layout: five attributes, each a fixed number of
//! single-precision components.
use vstd::prelude::*;

use crate::bits::{MINUS_ONE, ONE, ZERO};

verus! {

/// The attributes of a vertex, in the order in which guest vertex records
/// list them.
#[derive(Copy, Clone, Debug, PartialEq, Eq, Structural)]
pub enum VertexSemantics {
    Position,
    Color,
    UV,
    Normal,
    Tangent,
}

impl VertexSemantics {
    /// The attribute's name as shaders and error messages spell it.
    pub open spec fn spec_name(self) -> Seq<char> {
        match self {
            VertexSemantics::Position => "position"@,
            VertexSemantics::Color => "color"@,
            VertexSemantics::UV => "uv"@,
            VertexSemantics::Normal => "normal"@,
            VertexSemantics::Tangent => "tangent"@,
        }
    }

    /// The number of single-precision components of the attribute.
    pub open spec fn spec_width(self) -> nat {
        match self {
            VertexSemantics::Position => 3,
            VertexSemantics::Color => 3,
            VertexSemantics::UV => 2,
            VertexSemantics::Normal => 3,
            VertexSemantics::Tangent => 4,
        }
    }

    pub fn name(self) -> (r: &'static str)
        ensures
            r@ == self.spec_name(),
    {
        match self {
            VertexSemantics::Position => "position",
            VertexSemantics::Color => "color",
            VertexSemantics::UV => "uv",
            VertexSemantics::Normal => "normal",
            VertexSemantics::Tangent => "tangent",
        }
    }

    pub fn width(self) -> (r: usize)
        ensures
            r == self.spec_width(),
    {
        match self {
            VertexSemantics::Position => 3,
            VertexSemantics::Color => 3,
            VertexSemantics::UV => 2,
            VertexSemantics::Normal => 3,
            VertexSemantics::Tangent => 4,
        }
    }
}

/// One vertex; every component is a single-precision bit pattern.
#[derive(Copy, Clone, Debug, PartialEq, Eq)]
pub struct VertexType {
    pub position: [u32; 3],
    pub color: [u32; 3],
    pub uv: [u32; 2],
    pub normal: [u32; 3],
    pub tangent: [u32; 4],
}

/// White, the color of a vertex that states none.
pub const DEFAULT_COLOR: [u32; 3] = [ONE, ONE, ONE];

/// The texture coordinate of a vertex that states none.
pub const DEFAULT_UV: [u32; 2] = [ZERO, ZERO];

/// The normal of a vertex that states none: towards the viewer.
pub const DEFAULT_NORMAL: [u32; 3] = [ZERO, ZERO, MINUS_ONE];

/// The tangent of a vertex that states none: along the x axis.
pub const DEFAULT_TANGENT: [u32; 4] = [ONE, ZERO, ZERO, ONE];

impl VertexType {
    pub fn new(
        position: [u32; 3],
        color: [u32; 3],
        uv: [u32; 2],
        normal: [u32; 3],
        tangent: [u32; 4],
    ) -> (r: VertexType)
        ensures
            r == (VertexType { position, color, uv, normal, tangent }),
    {
        VertexType { position, color, uv, normal, tangent }
    }

    /// A vertex at `position` with every other attribute at its default.
    pub fn at(position: [u32; 3]) -> (r: VertexType)
        ensures
            r.position == position,
            r.color == DEFAULT_COLOR,
            r.uv == DEFAULT_UV,
            r.normal == DEFAULT_NORMAL,
            r.tangent == DEFAULT_TANGENT,
    {
        VertexType {
            position,
            color: DEFAULT_COLOR,
            uv: DEFAULT_UV,
            normal: DEFAULT_NORMAL,
            tangent: DEFAULT_TANGENT,
        }
    }
}

} // verus!
