//! The index buffer of a triangle mesh, from the source engine's width to
//! the target's.

use vstd::prelude::*;

verus! {

/// A triangle of a source mesh: three positions in its vertex buffer.
pub type SourceTriangle = (u32, u32, u32);

/// A triangle of a target mesh: three positions in its vertex buffer.
pub type TargetTriangle = (usize, usize, usize);

/// The triangle with the same three positions, at the target's width.
pub open spec fn widened(triangle: SourceTriangle) -> TargetTriangle {
    (triangle.0 as usize, triangle.1 as usize, triangle.2 as usize)
}

/// Widening changes no position: a `usize` holds every `u32`.
pub proof fn lemma_widened_keeps_positions(triangle: SourceTriangle)
    ensures
        widened(triangle).0 == triangle.0,
        widened(triangle).1 == triangle.1,
        widened(triangle).2 == triangle.2,
{
}

/// Calls `nalgebra::convert` from `u32` to `usize`. Between these two types
/// the conversion is a plain cast, and a `usize` is at least as wide as a
/// `u32`, so the result is the same number. This is taken from nalgebra's
/// source and not proved here.
#[verifier::external_body]
fn widen(index: u32) -> (wide: usize)
    ensures
        wide == index,
{
    nalgebra::convert(index)
}

/// Widens an index buffer: the same triangles in the same order, over the
/// same positions.
pub fn widen_indices(indices: &Vec<SourceTriangle>) -> (wide: Vec<TargetTriangle>)
    ensures
        wide@.len() == indices@.len(),
        forall|i: int| 0 <= i < indices@.len() ==> #[trigger] wide@[i] == widened(indices@[i]),
{
    let n: usize = indices.len();
    let mut wide: Vec<TargetTriangle> = Vec::new();
    let mut i: usize = 0;
    while i < n
        invariant
            n == indices@.len(),
            i <= n,
            wide@.len() == i,
            forall|k: int| 0 <= k < i ==> #[trigger] wide@[k] == widened(indices@[k]),
        decreases n - i,
    {
        let triangle = indices[i];
        wide.push((widen(triangle.0), widen(triangle.1), widen(triangle.2)));
        i += 1;
    }
    wide
}

} // verus!
