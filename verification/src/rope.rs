//! Index plans of the 2D rotary position embedding (RoPE).

use vstd::prelude::*;
use vstd::arithmetic::div_mod::lemma_fundamental_div_mod_converse;

verus! {

/// Number of rotation periods for a head of width `d_head`: the length of
/// `0, 4, 8, ...` below `d_head`.
pub open spec fn num_periods(d_head: nat) -> nat {
    (d_head + 3) / 4
}

/// Width of one attention head, `embed_dim / num_heads` (rounded down).
pub fn head_dim(embed_dim: usize, num_heads: usize) -> (d: usize)
    requires
        num_heads > 0,
    ensures
        d == embed_dim / num_heads,
{
    embed_dim / num_heads
}

/// The numerators of the period exponents: `0, 4, 8, ...`, every multiple of 4
/// below `d_head`. The period of index `i` is `base ^ (4 i / d_head)`.
pub fn period_exponents(d_head: usize) -> (v: Vec<usize>)
    ensures
        v@.len() == num_periods(d_head as nat),
        forall|i: int| 0 <= i < v@.len() ==> #[trigger] v@[i] == 4 * i,
        forall|i: int| 0 <= i < v@.len() ==> #[trigger] v@[i] < d_head,
{
    let count: usize = if d_head % 4 == 0 { d_head / 4 } else { d_head / 4 + 1 };
    let mut v: Vec<usize> = Vec::new();
    let mut i: usize = 0;
    while i < count
        invariant
            count == num_periods(d_head as nat),
            i <= count,
            v@.len() == i,
            forall|j: int| 0 <= j < i ==> #[trigger] v@[j] == 4 * j,
            forall|j: int| 0 <= j < i ==> #[trigger] v@[j] < d_head,
        decreases count - i,
    {
        v.push(4 * i);
        i = i + 1;
    }
    v
}


/// Row of patch token `t` in a grid `width` patches wide (row-major order).
pub open spec fn grid_row(t: int, width: int) -> int {
    t / width
}

/// Column of patch token `t` in a grid `width` patches wide (row-major order).
pub open spec fn grid_col(t: int, width: int) -> int {
    t % width
}

/// For every patch token of a `height` x `width` grid, in row-major order, its row
/// (first vector) and its column (second vector). The rotary table takes the first
/// angle coordinate of token `t` from its row and the second from its column.
pub fn grid_positions(height: usize, width: usize) -> (r: (Vec<usize>, Vec<usize>))
    requires
        height * width <= usize::MAX,
    ensures
        r.0@.len() == height * width,
        r.1@.len() == height * width,
        forall|t: int| 0 <= t < height * width ==> #[trigger] r.0@[t] == grid_row(t, width as int),
        forall|t: int| 0 <= t < height * width ==> #[trigger] r.1@[t] == grid_col(t, width as int),
{
    let n: usize = height * width;
    let mut rows: Vec<usize> = Vec::new();
    let mut cols: Vec<usize> = Vec::new();
    let mut t: usize = 0;
    while t < n
        invariant
            n == height * width,
            t <= n,
            rows@.len() == t,
            cols@.len() == t,
            forall|s: int| 0 <= s < t ==> #[trigger] rows@[s] == grid_row(s, width as int),
            forall|s: int| 0 <= s < t ==> #[trigger] cols@[s] == grid_col(s, width as int),
        decreases n - t,
    {
        assert(width > 0) by (nonlinear_arith)
            requires
                t < n,
                n == height * width,
        ;
        rows.push(t / width);
        cols.push(t % width);
        t = t + 1;
    }
    (rows, cols)
}

/// Column of the un-tiled angle table (`2 * num_periods` wide) that column `c` of the
/// tiled table (`4 * num_periods` wide, the table written twice side by side) repeats.
pub open spec fn tile_source(c: int, num_periods: int) -> int {
    if c < 2 * num_periods {
        c
    } else {
        c - 2 * num_periods
    }
}

/// For each column of the tiled angle table, the column of the un-tiled table that it
/// repeats. The un-tiled table holds, for coordinate axis `a` and period `p`, the
/// angle at column `a * num_periods + p`.
pub fn tile_plan(num_periods: usize) -> (v: Vec<usize>)
    requires
        4 * num_periods <= usize::MAX,
    ensures
        v@.len() == 4 * num_periods,
        forall|c: int| 0 <= c < v@.len() ==> #[trigger] v@[c] == tile_source(c, num_periods as int),
{
    let n: usize = 4 * num_periods;
    let half: usize = 2 * num_periods;
    let mut v: Vec<usize> = Vec::new();
    let mut c: usize = 0;
    while c < n
        invariant
            n == 4 * num_periods,
            half == 2 * num_periods,
            c <= n,
            v@.len() == c,
            forall|s: int| 0 <= s < c ==> #[trigger] v@[s] == tile_source(s, num_periods as int),
        decreases n - c,
    {
        if c < half {
            v.push(c);
        } else {
            v.push(c - half);
        }
        c = c + 1;
    }
    v
}

/// Source column of column `c` in the "rotate half" of a head with halves of width
/// `half`: the output is `[-x2, x1]` where `x1, x2` are the two halves of `x`.
pub open spec fn rotate_source(c: int, half: int) -> int {
    if c < half {
        c + half
    } else {
        c - half
    }
}

/// Whether column `c` of the rotated half takes its source with a minus sign.
pub open spec fn rotate_negates(c: int, half: int) -> bool {
    c < half
}

/// The "rotate half" of a head of width `head_dim`, as a gather plan: column `c` of
/// the result is column `sources[c]` of the input, negated where `negate[c]`.
/// The head must split into exactly two equal, non-empty halves.
pub fn rotate_half_plan(head_dim: usize) -> (r: (Vec<usize>, Vec<bool>))
    requires
        head_dim > 0,
        head_dim % 2 == 0,
    ensures
        r.0@.len() == head_dim,
        r.1@.len() == head_dim,
        forall|c: int| 0 <= c < head_dim ==> #[trigger] r.0@[c] == rotate_source(c, (head_dim / 2) as int),
        forall|c: int| 0 <= c < head_dim ==> #[trigger] r.1@[c] == rotate_negates(c, (head_dim / 2) as int),
        forall|c: int| 0 <= c < head_dim ==> (#[trigger] r.1@[c] <==> c < head_dim / 2),
        forall|c: int| 0 <= c < head_dim / 2 ==> #[trigger] r.0@[c] == c + head_dim / 2,
        forall|c: int| head_dim / 2 <= c < head_dim ==> #[trigger] r.0@[c] == c - head_dim / 2,
{
    let half: usize = head_dim / 2;
    let mut sources: Vec<usize> = Vec::new();
    let mut negate: Vec<bool> = Vec::new();
    let mut c: usize = 0;
    while c < head_dim
        invariant
            half == head_dim / 2,
            head_dim % 2 == 0,
            c <= head_dim,
            sources@.len() == c,
            negate@.len() == c,
            forall|s: int| 0 <= s < c ==> #[trigger] sources@[s] == rotate_source(s, half as int),
            forall|s: int| 0 <= s < c ==> #[trigger] negate@[s] == rotate_negates(s, half as int),
        decreases head_dim - c,
    {
        if c < half {
            sources.push(c + half);
            negate.push(true);
        } else {
            sources.push(c - half);
            negate.push(false);
        }
        c = c + 1;
    }
    (sources, negate)
}

/// The rotate-half is `[-x2, x1]`: the first half of the result is the second half of
/// the input with its sign flipped, the second half is the first half unchanged. The
/// negated half is always the first one, whatever the width of a half.
pub proof fn lemma_rotate_half_is_minus_second_then_first(c: int, half: int)
    requires
        half > 0,
        0 <= c < 2 * half,
    ensures
        rotate_negates(c, half) <==> c < half,
        c < half ==> rotate_source(c, half) == c + half,
        c >= half ==> rotate_source(c, half) == c - half,
{
}

/// Rotating half twice is a negation: the source of the source of a column is the
/// column itself, and exactly one of the two steps negates. Each pair of columns
/// `(c, c + half)` is therefore turned by a quarter turn.
pub proof fn lemma_rotate_half_twice(c: int, half: int)
    requires
        half > 0,
        0 <= c < 2 * half,
    ensures
        0 <= rotate_source(c, half) < 2 * half,
        rotate_source(rotate_source(c, half), half) == c,
        rotate_negates(c, half) != rotate_negates(rotate_source(c, half), half),
{
}

/// The two columns that the rotate-half pairs, `c` and its source, read the same
/// angle of the tiled table when the head is as wide as the table (`4 * num_periods`):
/// every pair is rotated by one angle.
pub proof fn lemma_rotated_pairs_share_angle(c: int, num_periods: int)
    requires
        num_periods > 0,
        0 <= c < 4 * num_periods,
    ensures
        tile_source(c, num_periods) == tile_source(rotate_source(c, 2 * num_periods), num_periods),
{
}

/// Column `c` of the tiled angle table uses coordinate axis `(c / num_periods) % 2`
/// (0: the patch row, 1: the patch column) and period `c % num_periods`.
pub proof fn lemma_tiled_column_layout(c: int, num_periods: int)
    requires
        num_periods > 0,
        0 <= c < 4 * num_periods,
    ensures
        0 <= tile_source(c, num_periods) < 2 * num_periods,
        tile_source(c, num_periods) / num_periods == (c / num_periods) % 2,
        tile_source(c, num_periods) % num_periods == c % num_periods,
{
    let p = num_periods;
    let s = tile_source(c, p);
    if c < p {
        lemma_fundamental_div_mod_converse(c, p, 0, c);
    } else if c < 2 * p {
        lemma_fundamental_div_mod_converse(c, p, 1, c - p);
    } else if c < 3 * p {
        lemma_fundamental_div_mod_converse(c, p, 2, c - 2 * p);
        lemma_fundamental_div_mod_converse(s, p, 0, s);
    } else {
        lemma_fundamental_div_mod_converse(c, p, 3, c - 3 * p);
        lemma_fundamental_div_mod_converse(s, p, 1, s - p);
    }
}

/// The rotary table is exactly as wide as a head (`4 * num_periods(d) == d`) if and
/// only if the head width `d` is a multiple of 4.
pub proof fn lemma_table_width(d: nat)
    ensures
        (4 * num_periods(d) == d) <==> (d % 4 == 0),
{
}

/// The row-major grid is a bijection: every token below `height * width` sits at a
/// row below `height` and a column below `width` and is recovered from them, and
/// every row and column below those bounds names a token below `height * width`.
pub proof fn lemma_grid_bijection(height: int, width: int, t: int, row: int, col: int)
    requires
        height > 0,
        width > 0,
        0 <= t < height * width,
        0 <= row < height,
        0 <= col < width,
    ensures
        0 <= grid_row(t, width) < height,
        0 <= grid_col(t, width) < width,
        grid_row(t, width) * width + grid_col(t, width) == t,
        0 <= row * width + col < height * width,
        grid_row(row * width + col, width) == row,
        grid_col(row * width + col, width) == col,
{
    vstd::arithmetic::div_mod::lemma_fundamental_div_mod(t, width);
    vstd::arithmetic::div_mod::lemma_div_pos_is_pos(t, width);
    vstd::arithmetic::div_mod::lemma_mod_bound(t, width);
    assert(grid_row(t, width) * width == width * grid_row(t, width)) by (nonlinear_arith);
    assert(grid_row(t, width) < height) by (nonlinear_arith)
        requires
            t < height * width,
            t == grid_row(t, width) * width + grid_col(t, width),
            grid_col(t, width) >= 0,
            width > 0,
    ;
    assert(0 <= row * width + col < height * width) by (nonlinear_arith)
        requires
            0 <= row < height,
            0 <= col < width,
    ;
    lemma_fundamental_div_mod_converse(row * width + col, width, row, col);
}

} // verus!
