//! Layout of the token sequence that the transformer blocks see: one class token,
//! then the storage (register) tokens, then the patch tokens in row-major order.

use vstd::prelude::*;

verus! {

/// What a position of the token sequence holds.
pub enum TokenKind {
    /// The class token, at position 0.
    Class,
    /// Storage token number `k`.
    Storage(usize),
    /// Patch token number `k` of the row-major patch grid.
    Patch(usize),
}

/// Length of the token sequence: the class token, `num_storage` storage tokens and
/// `num_patches` patch tokens.
pub open spec fn seq_len(num_storage: nat, num_patches: nat) -> nat {
    1 + num_storage + num_patches
}

/// Number of tokens ahead of the patch tokens: the class token and the storage tokens.
pub open spec fn prefix_len(num_storage: nat) -> nat {
    1 + num_storage
}

/// The kind of token at position `t` of a sequence with `num_storage` storage tokens
/// (the class token, the storage tokens and the patch tokens concatenated in that order).
pub open spec fn token_at(t: nat, num_storage: nat) -> TokenKind {
    if t == 0 {
        TokenKind::Class
    } else if t < prefix_len(num_storage) {
        TokenKind::Storage((t - 1) as usize)
    } else {
        TokenKind::Patch((t - prefix_len(num_storage)) as usize)
    }
}

/// Number of leading tokens that the rotary embedding leaves untouched: a sequence of
/// `seq` tokens whose last `rope_seq` tokens get a rotary angle each.
pub fn rope_prefix_len(seq: usize, rope_seq: usize) -> (n: usize)
    requires
        rope_seq <= seq,
    ensures
        n == seq - rope_seq,
        n + rope_seq == seq,
{
    seq - rope_seq
}

/// Given the sequence the model builds (class, storage, then one token per patch) and
/// a rotary table with one row per patch, the untouched prefix is exactly the class
/// and storage tokens, and the rotary row `t - prefix` of every later position `t`
/// belongs to the patch token that sits there.
pub proof fn lemma_rope_prefix_is_class_and_storage(num_storage: nat, num_patches: nat, t: nat)
    requires
        t < seq_len(num_storage, num_patches),
    ensures
        num_patches <= seq_len(num_storage, num_patches),
        seq_len(num_storage, num_patches) - num_patches == prefix_len(num_storage),
        t >= prefix_len(num_storage) ==> token_at(t, num_storage) == TokenKind::Patch(
            (t - prefix_len(num_storage)) as usize,
        ) && t - prefix_len(num_storage) < num_patches,
        t < prefix_len(num_storage) ==> !(token_at(t, num_storage) is Patch),
{
}

} // verus!
