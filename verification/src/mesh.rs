//! The fixed unit-quad mesh a session draws: four vertices of three
//! fixed-point coordinates each, and six indices forming two triangles.

use vstd::prelude::*;

verus! {

/// The vertex coordinates, three per vertex, in fixed-point scalars.
pub open spec fn mesh_vertices_s() -> Seq<i64> {
    seq![
        -2048i64,
        -2048i64,
        -4096i64,
        4096i64,
        -4096i64,
        -4096i64,
        4096i64,
        4096i64,
        -4096i64,
        -4096i64,
        4096i64,
        -4096i64,
    ]
}

/// The triangle indices into the vertex list.
pub open spec fn mesh_indices_s() -> Seq<u16> {
    seq![0u16, 1u16, 3u16, 2u16, 3u16, 1u16]
}

/// The vertex data uploaded once per session.
pub fn mesh_vertices() -> (v: Vec<i64>)
    ensures
        v@ == mesh_vertices_s(),
{
    let mut v: Vec<i64> = Vec::new();
    v.push(-2048);
    v.push(-2048);
    v.push(-4096);
    v.push(4096);
    v.push(-4096);
    v.push(-4096);
    v.push(4096);
    v.push(4096);
    v.push(-4096);
    v.push(-4096);
    v.push(4096);
    v.push(-4096);
    proof {
        assert(v@ =~= mesh_vertices_s());
    }
    v
}

/// The index data uploaded once per session.
pub fn mesh_indices() -> (v: Vec<u16>)
    ensures
        v@ == mesh_indices_s(),
{
    let mut v: Vec<u16> = Vec::new();
    v.push(0);
    v.push(1);
    v.push(3);
    v.push(2);
    v.push(3);
    v.push(1);
    proof {
        assert(v@ =~= mesh_indices_s());
    }
    v
}

} // verus!
