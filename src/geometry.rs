//! The static polygon that is uploaded once and drawn every frame.
//!
//! The polygon has five corners; it is drawn as three indexed triangles that
//! share the last corner.
use vstd::prelude::*;

verus! {

/// Number of corners of the polygon held in the vertex buffer.
pub const NUM_VERTICES: u32 = 5;

/// The index list, three corners per triangle.
pub open spec fn polygon_indices() -> Seq<u16> {
    seq![0u16, 1, 4, 1, 2, 4, 2, 3, 4]
}

/// Every index names a corner of the vertex buffer and the list is made of
/// whole triangles.
pub open spec fn indices_well_formed(ix: Seq<u16>, num_vertices: u32) -> bool {
    &&& ix.len() % 3 == 0
    &&& forall|i: int| 0 <= i < ix.len() ==> (ix[i] as u32) < num_vertices
}

/// The index list of the polygon.
pub fn indices() -> (r: Vec<u16>)
    ensures
        r@ == polygon_indices(),
        indices_well_formed(r@, NUM_VERTICES),
{
    let r: Vec<u16> = vec![0u16, 1, 4, 1, 2, 4, 2, 3, 4];
    assert(r@ =~= polygon_indices());
    r
}

/// Counts that a draw call over the uploaded geometry needs.
#[derive(Clone, Copy, Debug, PartialEq, Eq, Structural)]
pub struct GeometryCounts {
    pub num_vertices: u32,
    pub num_indices: u32,
}

/// The counts of the polygon's buffers: five corners, nine indices.
pub open spec fn polygon_counts() -> GeometryCounts {
    GeometryCounts { num_vertices: NUM_VERTICES, num_indices: polygon_indices().len() as u32 }
}

/// The vertex and index counts of the uploaded polygon.
pub fn geometry_counts() -> (r: GeometryCounts)
    ensures
        r == polygon_counts(),
        r.num_vertices == 5,
        r.num_indices == 9,
{
    let ix = indices();
    GeometryCounts { num_vertices: NUM_VERTICES, num_indices: ix.len() as u32 }
}

/// Whether `lo` and `hi` are the bytes of the 16-bit value `v`, in one byte
/// order or the other.
pub open spec fn bytes_of_u16(v: u16, lo: u8, hi: u8) -> bool {
    v as int == lo as int + 256 * hi as int || v as int == hi as int + 256 * lo as int
}

/// `b` holds the values of `ix` as bytes in memory order, two per value.
pub open spec fn u16_bytes(ix: Seq<u16>, b: Seq<u8>) -> bool {
    &&& b.len() == 2 * ix.len()
    &&& forall|i: int| 0 <= i < ix.len() ==> bytes_of_u16(#[trigger] ix[i], b[2 * i], b[2 * i + 1])
}

/// Relies on bytemuck::cast_slice from `u16` to `u8`: the same memory read as
/// bytes, two per value (the cast cannot fail between these two types).
#[verifier::external_body]
fn cast_u16_bytes(ix: &[u16]) -> (r: Vec<u8>)
    ensures
        u16_bytes(ix@, r@),
{
    bytemuck::cast_slice::<u16, u8>(ix).to_vec()
}

/// The contents of the index buffer: the polygon's index list as bytes.
pub fn index_buffer_contents() -> (r: Vec<u8>)
    ensures
        u16_bytes(polygon_indices(), r@),
        r@.len() == 18,
{
    let ix = indices();
    cast_u16_bytes(ix.as_slice())
}

} // verus!
