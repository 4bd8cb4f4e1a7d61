//! Head split of multi-head self-attention over a fused query/key/value projection.

use vstd::prelude::*;
use vstd::arithmetic::div_mod::{lemma_fundamental_div_mod, lemma_fundamental_div_mod_converse};

verus! {

/// Configuration of an attention layer: model width and number of heads.
pub struct AttentionConfig {
    /// Width of a token vector.
    pub dim: usize,
    /// Number of attention heads.
    pub num_heads: usize,
}

impl AttentionConfig {
    /// A configuration with the given width and number of heads.
    pub fn new(dim: usize, num_heads: usize) -> (c: AttentionConfig)
        ensures
            c.dim == dim,
            c.num_heads == num_heads,
    {
        AttentionConfig { dim, num_heads }
    }

    /// Output width of the fused query/key/value projection, three blocks of `dim`;
    /// also the length of the mask over its bias.
    pub fn qkv_dim(&self) -> (w: usize)
        requires
            3 * self.dim <= usize::MAX,
        ensures
            w == 3 * self.dim,
    {
        self.dim * 3
    }
}

/// Shape into which the fused projection of a `[batch, seq, 3 * dim]` tensor is
/// reshaped: `[batch, seq, 3, num_heads, dim / num_heads]`. The reshape only keeps
/// the number of elements when the heads divide the width evenly.
pub fn qkv_shape(batch: usize, seq: usize, dim: usize, num_heads: usize) -> (s: [usize; 5])
    requires
        num_heads > 0,
        dim % num_heads == 0,
    ensures
        s@ == seq![batch, seq, 3usize, num_heads, (dim / num_heads) as usize],
{
    [batch, seq, 3, num_heads, dim / num_heads]
}

/// Block of the fused projection that column `c` belongs to: 0 query, 1 key, 2 value.
pub open spec fn qkv_part(c: int, dim: int) -> int {
    c / dim
}

/// Head that column `c` of the fused projection belongs to.
pub open spec fn qkv_head(c: int, dim: int, head_dim: int) -> int {
    (c % dim) / head_dim
}

/// Position of column `c` of the fused projection within its head.
pub open spec fn qkv_lane(c: int, dim: int, head_dim: int) -> int {
    (c % dim) % head_dim
}

/// The reshape to `[3, num_heads, head_dim]` is a bijection on the `3 * dim` columns of
/// the fused projection: each column has a block below 3, a head below `num_heads`
/// and a lane below `head_dim`, and is recovered from them as
/// `part * dim + head * head_dim + lane`.
pub proof fn lemma_qkv_split(dim: int, num_heads: int, c: int)
    requires
        num_heads > 0,
        dim > 0,
        dim % num_heads == 0,
        0 <= c < 3 * dim,
    ensures
        num_heads * (dim / num_heads) == dim,
        0 <= qkv_part(c, dim) < 3,
        0 <= qkv_head(c, dim, dim / num_heads) < num_heads,
        0 <= qkv_lane(c, dim, dim / num_heads) < dim / num_heads,
        c == qkv_part(c, dim) * dim + qkv_head(c, dim, dim / num_heads) * (dim / num_heads)
            + qkv_lane(c, dim, dim / num_heads),
{
    let hd = dim / num_heads;
    lemma_fundamental_div_mod(dim, num_heads);
    assert(hd > 0) by (nonlinear_arith)
        requires
            dim == num_heads * hd,
            dim > 0,
            num_heads > 0,
    ;
    let part: int = if c < dim { 0 } else if c < 2 * dim { 1 } else { 2 };
    lemma_fundamental_div_mod_converse(c, dim, part, c - part * dim);
    let m = c % dim;
    lemma_fundamental_div_mod(m, hd);
    vstd::arithmetic::div_mod::lemma_mod_bound(m, hd);
    vstd::arithmetic::div_mod::lemma_div_pos_is_pos(m, hd);
    assert(m / hd < num_heads) by (nonlinear_arith)
        requires
            m < dim,
            dim == num_heads * hd,
            m == hd * (m / hd) + m % hd,
            m % hd >= 0,
            hd > 0,
    ;
    assert(hd * (m / hd) == (m / hd) * hd) by (nonlinear_arith);
}

} // verus!
