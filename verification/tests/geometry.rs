use burn_dinov3::arch::VitArch;
use burn_dinov3::attention::{qkv_shape, AttentionConfig};
use burn_dinov3::lora::lora_shapes;
use burn_dinov3::rope::{grid_positions, head_dim, period_exponents, rotate_half_plan, tile_plan};
use burn_dinov3::tokens::rope_prefix_len;

#[test]
fn vit_small_output_on_256_pixels_has_261_tokens() {
    // A 256x256 image with 16-pixel patches: 16x16 patches, one class token and
    // four storage tokens.
    let arch = VitArch::vit_small(16);
    assert_eq!(arch.forward_output_shape(1, 256, 256), [1, 261, 384]);
}

#[test]
fn output_shape_rounds_partial_patches_down() {
    let arch = VitArch::vit_base(16);
    assert_eq!(arch.forward_output_shape(2, 40, 16), [2, 1 + 4 + 2, 768]);
    assert_eq!(arch.forward_output_shape(3, 16, 16), [3, 6, 768]);
}

#[test]
fn presets_have_their_published_sizes() {
    let expected = [
        (VitArch::vit_small(16), 384, 12, 6),
        (VitArch::vit_base(16), 768, 12, 12),
        (VitArch::vit_large(16), 1024, 24, 16),
        (VitArch::vit_so400m(16), 1152, 27, 18),
        (VitArch::vit_huge2(16), 1280, 32, 20),
        (VitArch::vit_giant2(16), 1536, 40, 24),
        (VitArch::vit_7b(16), 4096, 40, 32),
    ];
    for (arch, embed_dim, depth, num_heads) in expected {
        assert_eq!(arch.patch_size, 16);
        assert_eq!(arch.embed_dim, embed_dim);
        assert_eq!(arch.num_storage_tokens, 4);
        assert_eq!(arch.depth, depth);
        assert_eq!(arch.num_heads, num_heads);
        let d = head_dim(arch.embed_dim, arch.num_heads);
        assert_eq!(d * arch.num_heads, arch.embed_dim);
        assert_eq!(d % 4, 0);
    }
    let arch = VitArch::new(14, 96, 0, 2, 3);
    assert_eq!((arch.patch_size, arch.embed_dim, arch.num_storage_tokens, arch.depth, arch.num_heads), (14, 96, 0, 2, 3));
}

#[test]
fn head_dim_rounds_down() {
    assert_eq!(head_dim(384, 6), 64);
    assert_eq!(head_dim(10, 4), 2);
    assert_eq!(head_dim(4096, 32), 128);
}

#[test]
fn period_exponents_step_by_four() {
    assert_eq!(period_exponents(64), (0..16).map(|i| 4 * i).collect::<Vec<usize>>());
    assert_eq!(period_exponents(10), vec![0, 4, 8]);
    assert_eq!(period_exponents(4), vec![0]);
    assert!(period_exponents(0).is_empty());
}

#[test]
fn table_width_matches_head_only_for_multiples_of_four() {
    assert_eq!(4 * period_exponents(64).len(), 64);
    assert_eq!(4 * period_exponents(10).len(), 12);
}

#[test]
fn grid_positions_are_row_major() {
    let (rows, cols) = grid_positions(2, 3);
    assert_eq!(rows, vec![0, 0, 0, 1, 1, 1]);
    assert_eq!(cols, vec![0, 1, 2, 0, 1, 2]);
    let (rows, cols) = grid_positions(0, 5);
    assert!(rows.is_empty() && cols.is_empty());
}

#[test]
fn grid_positions_are_a_bijection() {
    let (h, w) = (4, 7);
    let (rows, cols) = grid_positions(h, w);
    for t in 0..h * w {
        assert!(rows[t] < h && cols[t] < w);
        assert_eq!(rows[t] * w + cols[t], t);
    }
}

#[test]
fn tile_plan_repeats_the_table() {
    assert_eq!(tile_plan(2), vec![0, 1, 2, 3, 0, 1, 2, 3]);
    assert!(tile_plan(0).is_empty());
}

#[test]
fn tiled_columns_use_axis_and_period() {
    let p = 3;
    let plan = tile_plan(p);
    for c in 0..4 * p {
        assert_eq!(plan[c] / p, (c / p) % 2);
        assert_eq!(plan[c] % p, c % p);
    }
}

#[test]
fn rotate_half_is_minus_second_half_then_first_half() {
    let (sources, negate) = rotate_half_plan(6);
    assert_eq!(sources, vec![3, 4, 5, 0, 1, 2]);
    assert_eq!(negate, vec![true, true, true, false, false, false]);
}

#[test]
fn rotate_half_twice_negates() {
    let (sources, negate) = rotate_half_plan(8);
    for c in 0..8 {
        assert_eq!(sources[sources[c]], c);
        assert_ne!(negate[c], negate[sources[c]]);
    }
}

#[test]
fn rotated_pairs_share_an_angle() {
    let p = 4;
    let plan = tile_plan(p);
    let (sources, _) = rotate_half_plan(4 * p);
    for c in 0..4 * p {
        assert_eq!(plan[c], plan[sources[c]]);
    }
}

#[test]
fn rope_prefix_skips_class_and_storage_tokens() {
    assert_eq!(rope_prefix_len(261, 256), 5);
    assert_eq!(rope_prefix_len(7, 7), 0);
}

#[test]
fn qkv_reshape_splits_heads() {
    assert_eq!(qkv_shape(2, 261, 384, 6), [2, 261, 3, 6, 64]);
    assert_eq!(qkv_shape(1, 1, 12, 12), [1, 1, 3, 12, 1]);
}

#[test]
fn attention_config_widths() {
    let config = AttentionConfig::new(384, 6);
    assert_eq!((config.dim, config.num_heads), (384, 6));
    assert_eq!(config.qkv_dim(), 1152);
}

#[test]
fn lora_shapes_use_fused_fan_in() {
    let s = lora_shapes(384, 8);
    assert_eq!(s.a, [384, 8]);
    assert_eq!(s.b, [8, 384]);
    assert_eq!(s.fan_in, 1152);
    assert_eq!(s.fan_out, 8);
    assert_eq!(s.out_dim, 1152);
}
