//! Static cube geometry shared by the renderer and its backend.
//!
//! The mesh is a unit cube: 8 vertices, 36 indices forming 12 triangles with
//! consistent winding. The vertex positions and corner colors are
//! floating-point data owned by the backend; the index data is plain and
//! lives here.

use vstd::prelude::*;

verus! {

pub const CUBE_VERTEX_COUNT: u16 = 8;

pub const CUBE_INDEX_COUNT: u32 = 36;

/// The cube's index list: 12 triangles over the 8 vertices.
pub open spec fn spec_cube_indices() -> Seq<u16> {
    seq![
        0u16, 1, 2, 0, 2, 3,
        4, 6, 5, 4, 7, 6,
        4, 5, 1, 4, 1, 0,
        3, 2, 6, 3, 6, 7,
        1, 5, 6, 1, 6, 2,
        4, 0, 3, 4, 3, 7,
    ]
}

/// The index buffer contents for the cube mesh.
pub fn cube_indices() -> (idx: [u16; 36])
    ensures
        idx@ == spec_cube_indices(),
        idx@.len() == CUBE_INDEX_COUNT,
{
    let idx: [u16; 36] = [
        0, 1, 2, 0, 2, 3,
        4, 6, 5, 4, 7, 6,
        4, 5, 1, 4, 1, 0,
        3, 2, 6, 3, 6, 7,
        1, 5, 6, 1, 6, 2,
        4, 0, 3, 4, 3, 7,
    ];
    proof {
        assert(idx@ =~= spec_cube_indices());
    }
    idx
}

/// Every index addresses one of the cube's 8 vertices, so an indexed draw of
/// the full list stays inside the vertex buffer.
pub proof fn lemma_cube_indices_in_range()
    ensures
        forall|i: int|
            0 <= i < spec_cube_indices().len() ==> spec_cube_indices()[i]
                < CUBE_VERTEX_COUNT,
{
    assert forall|i: int| 0 <= i < spec_cube_indices().len() implies spec_cube_indices()[i]
        < CUBE_VERTEX_COUNT by {
        let s = spec_cube_indices();
        assert(s[i] < CUBE_VERTEX_COUNT);
    }
}

} // verus!
