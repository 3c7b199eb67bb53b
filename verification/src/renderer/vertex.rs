//! The unit-quad vertex and index data shared by every draw call.

use crate::fx::{FX_SCALE, Fx};
use vstd::prelude::*;

verus! {

/// Half of one, the quad's half-extent.
pub const FX_HALF: i64 = 2147483648;

/// Minus one half, the quad's negative half-extent.
pub const FX_NEG_HALF: i64 = -2147483648;

/// A 2D vertex with a texture coordinate.
#[derive(Clone, Copy, Debug, PartialEq, Eq)]
pub struct Vertex {
    pub position: (Fx, Fx),
    pub texture_coordinates: (Fx, Fx),
}

impl Vertex {
    /// The vertex with the given position and texture coordinate.
    pub fn new(position: (Fx, Fx), texture_coordinates: (Fx, Fx)) -> (v: Vertex)
        ensures
            v == (Vertex { position, texture_coordinates }),
    {
        Vertex { position, texture_coordinates }
    }
}

/// The four corners of the unit quad, at (+-1/2, +-1/2), with texture
/// coordinates mapping (1/2, 1/2) to (1, 1) and (-1/2, -1/2) to (0, 0).
pub open spec fn quad_vertices_spec() -> Seq<Vertex> {
    let h = Fx { raw: FX_HALF };
    let nh = Fx { raw: FX_NEG_HALF };
    let o = Fx { raw: FX_SCALE };
    let z = Fx { raw: 0 };
    seq![
        Vertex { position: (h, h), texture_coordinates: (o, o) },
        Vertex { position: (h, nh), texture_coordinates: (o, z) },
        Vertex { position: (nh, nh), texture_coordinates: (z, z) },
        Vertex { position: (nh, h), texture_coordinates: (z, o) },
    ]
}

/// The index list drawing the quad as the two triangles {0, 1, 3} and
/// {1, 2, 3}.
pub open spec fn quad_indices_spec() -> Seq<u16> {
    seq![0u16, 1u16, 3u16, 1u16, 2u16, 3u16]
}

/// The unit-quad vertices.
pub fn quad_vertices() -> (vs: [Vertex; 4])
    ensures
        vs@ == quad_vertices_spec(),
{
    let h = Fx { raw: FX_HALF };
    let nh = Fx { raw: FX_NEG_HALF };
    let o = Fx { raw: FX_SCALE };
    let z = Fx { raw: 0 };
    let vs = [
        Vertex { position: (h, h), texture_coordinates: (o, o) },
        Vertex { position: (h, nh), texture_coordinates: (o, z) },
        Vertex { position: (nh, nh), texture_coordinates: (z, z) },
        Vertex { position: (nh, h), texture_coordinates: (z, o) },
    ];
    proof {
        assert(vs@ =~= quad_vertices_spec());
    }
    vs
}

/// The unit-quad index list.
pub fn quad_indices() -> (is: [u16; 6])
    ensures
        is@ == quad_indices_spec(),
{
    let is = [0u16, 1u16, 3u16, 1u16, 2u16, 3u16];
    proof {
        assert(is@ =~= quad_indices_spec());
    }
    is
}

} // verus!
