use particle_sort::binning::{low_word, next_power_of_two, scale_cells, BinConfig, MAX_DIMENSION};
use particle_sort::ratio::Ratio;
use particle_sort::uniforms::UniformBuffer;

#[test]
fn next_power_of_two_rounds_up() {
    assert_eq!(next_power_of_two(0), 1);
    assert_eq!(next_power_of_two(1), 1);
    assert_eq!(next_power_of_two(2), 2);
    assert_eq!(next_power_of_two(3), 4);
    assert_eq!(next_power_of_two(1080), 2048);
    assert_eq!(next_power_of_two(1920), 2048);
    assert_eq!(next_power_of_two(2048), 2048);
    assert_eq!(next_power_of_two(2049), 4096);
    assert_eq!(next_power_of_two(MAX_DIMENSION), MAX_DIMENSION);
}

#[test]
fn scale_cells_doubles_and_halves() {
    assert_eq!(scale_cells(2048, 0), Some(2048));
    assert_eq!(scale_cells(2048, 3), Some(16384));
    assert_eq!(scale_cells(2048, -9), Some(4));
    assert_eq!(scale_cells(2048, -11), Some(1));
    assert_eq!(scale_cells(2048, -12), None);
    assert_eq!(scale_cells(2048, i32::MIN), None);
    assert_eq!(scale_cells(1, 63), Some(1u64 << 63));
    assert_eq!(scale_cells(1, 64), None);
    assert_eq!(scale_cells(2048, i32::MAX), None);
    assert_eq!(scale_cells(0, 5), None);
    assert_eq!(scale_cells(6, -1), Some(3));
    assert_eq!(scale_cells(6, -2), Some(1));
}

#[test]
fn grid_for_full_hd_at_coarse_scale() {
    let config = BinConfig::new(1920, 1080, -9, -10);
    assert_eq!(config.grid_x, 4);
    assert_eq!(config.grid_y, 2);
    assert_eq!(config.num_bins, 8);
    assert_eq!(config.bin_x, Ratio { numer: 1920, denom: 4 });
    assert_eq!(config.bin_y, Ratio { numer: 1080, denom: 2 });
}

#[test]
fn grid_without_scaling_is_next_power_of_two() {
    let config = BinConfig::new(1920, 1080, 0, 0);
    assert_eq!(config.grid_x, 2048);
    assert_eq!(config.grid_y, 2048);
    assert_eq!(config.num_bins, 2048 * 2048);
    let exact = BinConfig::new(512, 64, 0, 0);
    assert_eq!(exact.grid_x, 512);
    assert_eq!(exact.grid_y, 64);
    assert_eq!(exact.num_bins, 512 * 64);
}

#[test]
fn grid_with_positive_scale_doubles() {
    let config = BinConfig::new(100, 100, 2, 1);
    assert_eq!(config.grid_x, 512);
    assert_eq!(config.grid_y, 256);
    assert_eq!(config.num_bins, 512 * 256);
    assert_eq!(config.bin_x, Ratio { numer: 100, denom: 512 });
    assert_eq!(config.bin_y, Ratio { numer: 100, denom: 256 });
}

#[test]
fn grid_of_empty_viewport_has_one_bin() {
    let config = BinConfig::new(0, 0, 0, 0);
    assert_eq!(config.grid_x, 1);
    assert_eq!(config.grid_y, 1);
    assert_eq!(config.num_bins, 1);
}

#[test]
fn try_new_agrees_with_new() {
    let checked = BinConfig::try_new(1920, 1080, -9, -10);
    assert_eq!(checked, Some(BinConfig::new(1920, 1080, -9, -10)));
    let fine = BinConfig::try_new(1920, 1080, 3, -2).unwrap();
    assert_eq!(fine.grid_x, 16384);
    assert_eq!(fine.grid_y, 512);
    assert_eq!(fine.num_bins, 16384 * 512);
}

#[test]
fn try_new_refuses_a_vanishing_axis() {
    assert_eq!(BinConfig::try_new(1920, 1080, -12, 0), None);
    assert_eq!(BinConfig::try_new(1920, 1080, 0, -12), None);
    assert!(BinConfig::try_new(1920, 1080, -11, -11).is_some());
}

#[test]
fn try_new_refuses_what_does_not_fit() {
    assert_eq!(BinConfig::try_new(1920, 1080, 53, 0), None);
    assert_eq!(BinConfig::try_new(1920, 1080, 30, 30), None);
    assert_eq!(BinConfig::try_new(MAX_DIMENSION + 1, 1080, 0, 0), None);
    assert_eq!(BinConfig::try_new(1080, u64::MAX, 0, 0), None);
    assert_eq!(BinConfig::try_new(MAX_DIMENSION, 2, 0, 0), None);
    let edge = BinConfig::try_new(MAX_DIMENSION, 1, 0, 0).unwrap();
    assert_eq!(edge.grid_x, MAX_DIMENSION);
    assert_eq!(edge.num_bins, MAX_DIMENSION);
}

#[test]
fn every_derived_axis_is_a_power_of_two() {
    for width in [0u64, 1, 7, 640, 1920, 4097] {
        for scale in -5i32..6 {
            if let Some(config) = BinConfig::try_new(width, 1080, scale, 0) {
                assert!(config.grid_x.is_power_of_two());
                assert!(config.grid_y.is_power_of_two());
                assert_eq!(config.num_bins, config.grid_x * config.grid_y);
                assert!(config.num_bins >= 1);
            }
        }
    }
}

#[test]
fn low_word_keeps_32_bits() {
    assert_eq!(low_word(0), 0);
    assert_eq!(low_word(8), 8);
    assert_eq!(low_word(0xffff_ffff), 0xffff_ffff);
    assert_eq!(low_word(0x1_0000_0000), 0);
    assert_eq!(low_word(0x12_3456_789a), 0x3456_789a);
}

#[test]
fn update_uniforms_writes_the_grid() {
    let mut uniforms = UniformBuffer::new(1500, 1920, 1080);
    let before = uniforms;
    let config = BinConfig::new(1920, 1080, -9, -10);
    config.update_uniforms(&mut uniforms);
    assert_eq!(uniforms.data.num_bins_x, 4);
    assert_eq!(uniforms.data.num_bins_y, 2);
    assert_eq!(uniforms.data.num_bins, 8);
    assert_eq!(uniforms.data.bin_size_x, Ratio { numer: 1920, denom: 4 });
    assert_eq!(uniforms.data.bin_size_y, Ratio { numer: 1080, denom: 2 });
    assert_eq!(uniforms.data.particle_count, 1500);
    assert_eq!(uniforms.data.width, 1920);
    assert_eq!(uniforms.data.height, 1080);
    assert_eq!(uniforms.data.momentum, before.data.momentum);
    assert_eq!(uniforms.buffer, before.buffer);
}

#[test]
fn update_uniforms_keeps_the_low_word_of_a_wide_grid() {
    let mut uniforms = UniformBuffer::new(1, 1, 1);
    let config = BinConfig::new(1 << 32, 3, 1, 0);
    assert_eq!(config.grid_x, 1 << 33);
    assert_eq!(config.grid_y, 4);
    config.update_uniforms(&mut uniforms);
    assert_eq!(uniforms.data.num_bins_x, 0);
    assert_eq!(uniforms.data.num_bins_y, 4);
    assert_eq!(uniforms.data.num_bins, 0);
}
