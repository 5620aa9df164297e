//! The layout of a UI vertex as the shader program reads it.

use vstd::prelude::*;

verus! {

/// The attributes of a UI vertex.
#[derive(Clone, Copy, Debug, PartialEq, Eq, Structural)]
pub enum VertexSemantics {
    Position,
    Uv,
    Color,
}

impl VertexSemantics {
    /// How many numbers make up the attribute: two for a position or a
    /// texture coordinate, four for a colour.
    pub open spec fn spec_components(self) -> usize {
        match self {
            VertexSemantics::Position => 2,
            VertexSemantics::Uv => 2,
            VertexSemantics::Color => 4,
        }
    }

    /// The name under which the vertex shader declares the attribute.
    pub open spec fn spec_name(self) -> Seq<char> {
        match self {
            VertexSemantics::Position => "v_pos"@,
            VertexSemantics::Uv => "v_uv"@,
            VertexSemantics::Color => "v_color"@,
        }
    }

    /// The place of the attribute in the vertex layout.
    pub open spec fn spec_index(self) -> usize {
        match self {
            VertexSemantics::Position => 0,
            VertexSemantics::Uv => 1,
            VertexSemantics::Color => 2,
        }
    }

    #[verifier::when_used_as_spec(spec_components)]
    pub fn components(self) -> (n: usize)
        ensures
            n == self.spec_components(),
    {
        match self {
            VertexSemantics::Position => 2,
            VertexSemantics::Uv => 2,
            VertexSemantics::Color => 4,
        }
    }

    pub fn name(self) -> (name: &'static str)
        ensures
            name@ == self.spec_name(),
    {
        match self {
            VertexSemantics::Position => "v_pos",
            VertexSemantics::Uv => "v_uv",
            VertexSemantics::Color => "v_color",
        }
    }

    #[verifier::when_used_as_spec(spec_index)]
    pub fn index(self) -> (i: usize)
        ensures
            i == self.spec_index(),
    {
        match self {
            VertexSemantics::Position => 0,
            VertexSemantics::Uv => 1,
            VertexSemantics::Color => 2,
        }
    }
}

} // verus!
