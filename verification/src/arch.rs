//! Integer architecture of a DINOv3 vision transformer and its published presets.

use vstd::prelude::*;
use crate::tokens::seq_len;

verus! {

/// The integer part of a vision transformer's configuration.
pub struct VitArch {
    /// Side of a square image patch, in pixels; also the stride of the patch embedding.
    pub patch_size: usize,
    /// Width of a token vector.
    pub embed_dim: usize,
    /// Number of storage (register) tokens placed after the class token.
    pub num_storage_tokens: usize,
    /// Number of transformer blocks.
    pub depth: usize,
    /// Number of attention heads in every block.
    pub num_heads: usize,
}

/// Number of patches along a side of `size` pixels: the output size of a convolution
/// with kernel and stride `patch_size`, no padding and no dilation.
pub open spec fn patch_grid_len(size: nat, patch_size: nat) -> nat {
    ((size - patch_size) / patch_size as int + 1) as nat
}

/// The ViT-S preset.
pub open spec fn vit_small_arch(patch_size: usize) -> VitArch {
    VitArch { patch_size, embed_dim: 384, num_storage_tokens: 4, depth: 12, num_heads: 6 }
}

/// The ViT-B preset.
pub open spec fn vit_base_arch(patch_size: usize) -> VitArch {
    VitArch { patch_size, embed_dim: 768, num_storage_tokens: 4, depth: 12, num_heads: 12 }
}

/// The ViT-L preset.
pub open spec fn vit_large_arch(patch_size: usize) -> VitArch {
    VitArch { patch_size, embed_dim: 1024, num_storage_tokens: 4, depth: 24, num_heads: 16 }
}

/// The ViT-SO400M preset.
pub open spec fn vit_so400m_arch(patch_size: usize) -> VitArch {
    VitArch { patch_size, embed_dim: 1152, num_storage_tokens: 4, depth: 27, num_heads: 18 }
}

/// The ViT-H+ preset.
pub open spec fn vit_huge2_arch(patch_size: usize) -> VitArch {
    VitArch { patch_size, embed_dim: 1280, num_storage_tokens: 4, depth: 32, num_heads: 20 }
}

/// The ViT-G preset.
pub open spec fn vit_giant2_arch(patch_size: usize) -> VitArch {
    VitArch { patch_size, embed_dim: 1536, num_storage_tokens: 4, depth: 40, num_heads: 24 }
}

/// The ViT-7B preset.
pub open spec fn vit_7b_arch(patch_size: usize) -> VitArch {
    VitArch { patch_size, embed_dim: 4096, num_storage_tokens: 4, depth: 40, num_heads: 32 }
}

impl VitArch {
    /// An architecture with the given sizes.
    pub fn new(
        patch_size: usize,
        embed_dim: usize,
        num_storage_tokens: usize,
        depth: usize,
        num_heads: usize,
    ) -> (a: VitArch)
        ensures
            a.patch_size == patch_size,
            a.embed_dim == embed_dim,
            a.num_storage_tokens == num_storage_tokens,
            a.depth == depth,
            a.num_heads == num_heads,
    {
        VitArch { patch_size, embed_dim, num_storage_tokens, depth, num_heads }
    }

    /// Width of one attention head.
    pub open spec fn head_width(self) -> int {
        self.embed_dim as int / self.num_heads as int
    }

    /// What a forward pass needs of the sizes: a non-empty patch, heads that split the
    /// width evenly (the query/key/value reshape), and heads whose width is a positive
    /// multiple of 4 (the rotary table is as wide as a head and splits in two halves).
    pub open spec fn supports_forward(self) -> bool {
        &&& self.patch_size > 0
        &&& self.num_heads > 0
        &&& self.embed_dim % self.num_heads == 0
        &&& self.head_width() > 0
        &&& self.head_width() % 4 == 0
    }

    /// The ViT-S preset with the given patch size.
    pub fn vit_small(patch_size: usize) -> (a: VitArch)
        ensures
            a == vit_small_arch(patch_size),
            a.patch_size == patch_size,
            a.embed_dim == 384,
            a.num_storage_tokens == 4,
            a.depth == 12,
            a.num_heads == 6,
    {
        VitArch { patch_size, embed_dim: 384, num_storage_tokens: 4, depth: 12, num_heads: 6 }
    }

    /// The ViT-B preset with the given patch size.
    pub fn vit_base(patch_size: usize) -> (a: VitArch)
        ensures
            a == vit_base_arch(patch_size),
            a.patch_size == patch_size,
            a.embed_dim == 768,
            a.num_storage_tokens == 4,
            a.depth == 12,
            a.num_heads == 12,
    {
        VitArch { patch_size, embed_dim: 768, num_storage_tokens: 4, depth: 12, num_heads: 12 }
    }

    /// The ViT-L preset with the given patch size.
    pub fn vit_large(patch_size: usize) -> (a: VitArch)
        ensures
            a == vit_large_arch(patch_size),
            a.patch_size == patch_size,
            a.embed_dim == 1024,
            a.num_storage_tokens == 4,
            a.depth == 24,
            a.num_heads == 16,
    {
        VitArch { patch_size, embed_dim: 1024, num_storage_tokens: 4, depth: 24, num_heads: 16 }
    }

    /// The ViT-SO400M preset with the given patch size.
    pub fn vit_so400m(patch_size: usize) -> (a: VitArch)
        ensures
            a == vit_so400m_arch(patch_size),
            a.patch_size == patch_size,
            a.embed_dim == 1152,
            a.num_storage_tokens == 4,
            a.depth == 27,
            a.num_heads == 18,
    {
        VitArch { patch_size, embed_dim: 1152, num_storage_tokens: 4, depth: 27, num_heads: 18 }
    }

    /// The ViT-H+ preset with the given patch size.
    pub fn vit_huge2(patch_size: usize) -> (a: VitArch)
        ensures
            a == vit_huge2_arch(patch_size),
            a.patch_size == patch_size,
            a.embed_dim == 1280,
            a.num_storage_tokens == 4,
            a.depth == 32,
            a.num_heads == 20,
    {
        VitArch { patch_size, embed_dim: 1280, num_storage_tokens: 4, depth: 32, num_heads: 20 }
    }

    /// The ViT-G preset with the given patch size.
    pub fn vit_giant2(patch_size: usize) -> (a: VitArch)
        ensures
            a == vit_giant2_arch(patch_size),
            a.patch_size == patch_size,
            a.embed_dim == 1536,
            a.num_storage_tokens == 4,
            a.depth == 40,
            a.num_heads == 24,
    {
        VitArch { patch_size, embed_dim: 1536, num_storage_tokens: 4, depth: 40, num_heads: 24 }
    }

    /// The ViT-7B preset with the given patch size.
    pub fn vit_7b(patch_size: usize) -> (a: VitArch)
        ensures
            a == vit_7b_arch(patch_size),
            a.patch_size == patch_size,
            a.embed_dim == 4096,
            a.num_storage_tokens == 4,
            a.depth == 40,
            a.num_heads == 32,
    {
        VitArch { patch_size, embed_dim: 4096, num_storage_tokens: 4, depth: 40, num_heads: 32 }
    }

    /// Shape `[batch, tokens, embed_dim]` of the output of a forward pass on images of
    /// `image_height` x `image_width` pixels: one class token, the storage tokens and
    /// one token per patch of the grid. Images smaller than a patch have no grid.
    pub fn forward_output_shape(&self, batch: usize, image_height: usize, image_width: usize) -> (s: [usize; 3])
        requires
            self.patch_size > 0,
            image_height >= self.patch_size,
            image_width >= self.patch_size,
            seq_len(
                self.num_storage_tokens as nat,
                patch_grid_len(image_height as nat, self.patch_size as nat) * patch_grid_len(
                    image_width as nat,
                    self.patch_size as nat,
                ),
            ) <= usize::MAX,
        ensures
            s@ == seq![
                batch,
                seq_len(
                    self.num_storage_tokens as nat,
                    patch_grid_len(image_height as nat, self.patch_size as nat) * patch_grid_len(
                        image_width as nat,
                        self.patch_size as nat,
                    ),
                ) as usize,
                self.embed_dim,
            ],
    {
        let grid_h: usize = (image_height - self.patch_size) / self.patch_size + 1;
        let grid_w: usize = (image_width - self.patch_size) / self.patch_size + 1;
        let tokens: usize = 1 + self.num_storage_tokens + grid_h * grid_w;
        [batch, tokens, self.embed_dim]
    }
}

/// Every preset, with any non-empty patch, has the sizes a forward pass needs; all
/// of them have heads 64 wide, except ViT-7B whose heads are 128 wide.
pub proof fn lemma_presets_support_forward(patch_size: usize)
    requires
        patch_size > 0,
    ensures
        vit_small_arch(patch_size).supports_forward(),
        vit_base_arch(patch_size).supports_forward(),
        vit_large_arch(patch_size).supports_forward(),
        vit_so400m_arch(patch_size).supports_forward(),
        vit_huge2_arch(patch_size).supports_forward(),
        vit_giant2_arch(patch_size).supports_forward(),
        vit_7b_arch(patch_size).supports_forward(),
        vit_small_arch(patch_size).head_width() == 64,
        vit_base_arch(patch_size).head_width() == 64,
        vit_large_arch(patch_size).head_width() == 64,
        vit_so400m_arch(patch_size).head_width() == 64,
        vit_huge2_arch(patch_size).head_width() == 64,
        vit_giant2_arch(patch_size).head_width() == 64,
        vit_7b_arch(patch_size).head_width() == 128,
{
}

/// Every preset keeps the patch size it is given and has its published sizes:
/// four storage tokens, and the width, depth and number of heads of its model.
pub proof fn lemma_presets_keep_patch_size(patch_size: usize)
    ensures
        vit_small_arch(patch_size).patch_size == patch_size,
        vit_small_arch(patch_size).num_storage_tokens == 4,
        vit_small_arch(patch_size).embed_dim == 384 && vit_small_arch(patch_size).depth == 12
            && vit_small_arch(patch_size).num_heads == 6,
        vit_base_arch(patch_size).patch_size == patch_size,
        vit_base_arch(patch_size).num_storage_tokens == 4,
        vit_base_arch(patch_size).embed_dim == 768 && vit_base_arch(patch_size).depth == 12
            && vit_base_arch(patch_size).num_heads == 12,
        vit_large_arch(patch_size).patch_size == patch_size,
        vit_large_arch(patch_size).num_storage_tokens == 4,
        vit_large_arch(patch_size).embed_dim == 1024 && vit_large_arch(patch_size).depth == 24
            && vit_large_arch(patch_size).num_heads == 16,
        vit_so400m_arch(patch_size).patch_size == patch_size,
        vit_so400m_arch(patch_size).num_storage_tokens == 4,
        vit_so400m_arch(patch_size).embed_dim == 1152 && vit_so400m_arch(patch_size).depth == 27
            && vit_so400m_arch(patch_size).num_heads == 18,
        vit_huge2_arch(patch_size).patch_size == patch_size,
        vit_huge2_arch(patch_size).num_storage_tokens == 4,
        vit_huge2_arch(patch_size).embed_dim == 1280 && vit_huge2_arch(patch_size).depth == 32
            && vit_huge2_arch(patch_size).num_heads == 20,
        vit_giant2_arch(patch_size).patch_size == patch_size,
        vit_giant2_arch(patch_size).num_storage_tokens == 4,
        vit_giant2_arch(patch_size).embed_dim == 1536 && vit_giant2_arch(patch_size).depth == 40
            && vit_giant2_arch(patch_size).num_heads == 24,
        vit_7b_arch(patch_size).patch_size == patch_size,
        vit_7b_arch(patch_size).num_storage_tokens == 4,
        vit_7b_arch(patch_size).embed_dim == 4096 && vit_7b_arch(patch_size).depth == 40
            && vit_7b_arch(patch_size).num_heads == 32,
{
}

} // verus!
