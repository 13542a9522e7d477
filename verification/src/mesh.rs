//! The fixed triangle mesh: three 2D vertex positions and three indices.
//!
//! Vertex coordinates are carried as integers counting half-units, so that
//! a coordinate of `-1` stands for minus one half and `1` for one half.
//! The caller that talks to the graphics driver scales them back down.

use vstd::prelude::*;

verus! {

/// The six vertex coordinates (x, y per vertex) in half-units.
pub open spec fn triangle_vertices_half_spec() -> Seq<i32> {
    seq![-1i32, -1i32, 0i32, -1i32, 1i32, 1i32]
}

/// The three indices of the single triangle.
pub open spec fn triangle_indices_spec() -> Seq<u32> {
    seq![0u32, 1u32, 2u32]
}

/// Number of components (x and y) stored per vertex.
pub open spec fn components_per_vertex() -> int {
    2
}

/// Number of vertices described by the vertex array.
pub open spec fn vertex_count() -> int {
    triangle_vertices_half_spec().len() as int / components_per_vertex()
}

/// The vertex position array of the mesh, in half-units.
pub fn triangle_vertices_half() -> (v: Vec<i32>)
    ensures
        v@ == triangle_vertices_half_spec(),
{
    let v: Vec<i32> = vec![-1, -1, 0, -1, 1, 1];
    proof {
        assert(v@ =~= triangle_vertices_half_spec());
    }
    v
}

/// The triangle index array of the mesh. Every index addresses one of the
/// mesh's vertices.
pub fn triangle_indices() -> (ix: Vec<u32>)
    ensures
        ix@ == triangle_indices_spec(),
        forall|i: int| 0 <= i < ix@.len() ==> (ix@[i] as int) < vertex_count(),
{
    let ix: Vec<u32> = vec![0, 1, 2];
    proof {
        assert(ix@ =~= triangle_indices_spec());
    }
    ix
}

/// How the raw vertex buffer bytes map to attribute slot 0: two 32-bit
/// float components per vertex, tightly packed from the start of the buffer.
pub struct AttributeLayout {
    /// The attribute slot that is enabled and described.
    pub slot: u32,
    /// Components read per vertex.
    pub components: u32,
    /// Distance in bytes between the starts of consecutive vertices.
    pub stride_bytes: u32,
    /// Offset in bytes of the first component in the buffer.
    pub offset_bytes: u32,
}

/// The one hard-coded layout this harness uses: slot 0, two four-byte
/// components per vertex, no gap between vertices, starting at offset 0.
pub fn attribute_layout() -> (l: AttributeLayout)
    ensures
        l.slot == 0u32,
        l.components == components_per_vertex(),
        l.stride_bytes == 8u32,
        l.offset_bytes == 0u32,
{
    AttributeLayout { slot: 0, components: 2, stride_bytes: 8, offset_bytes: 0 }
}

} // verus!
