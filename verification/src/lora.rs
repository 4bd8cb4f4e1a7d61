//! Shapes of the low-rank adapter (LoRA) that is added to the fused query/key/value
//! projection of an attention layer.

use vstd::prelude::*;

verus! {

/// Shapes and initialization fans of a low-rank adapter of rank `rank` on a layer of
/// width `dim`.
pub struct LoraShapes {
    /// Shape of the down projection `a`: `[dim, rank]`.
    pub a: [usize; 2],
    /// Shape of each of the up projections for the query and the value: `[rank, dim]`.
    pub b: [usize; 2],
    /// Fan-in used to initialize `a`: the width of the whole fused projection.
    pub fan_in: usize,
    /// Fan-out used to initialize `a`: the rank.
    pub fan_out: usize,
    /// Width of the adapter's output: query, key and value blocks of `dim` each.
    pub out_dim: usize,
}

/// The shapes of an adapter of rank `rank` for a layer of width `dim`.
pub fn lora_shapes(dim: usize, rank: usize) -> (s: LoraShapes)
    requires
        3 * dim <= usize::MAX,
    ensures
        s.a@ == seq![dim, rank],
        s.b@ == seq![rank, dim],
        s.fan_in == 3 * dim,
        s.fan_out == rank,
        s.out_dim == 3 * dim,
{
    LoraShapes { a: [dim, rank], b: [rank, dim], fan_in: dim * 3, fan_out: rank, out_dim: dim * 3 }
}

} // verus!
