use vello::blur::{
    kernel_tap_count, pack_weights, plan_blur, BlurAction, BlurParams, BlurPass, IntermediateCache,
    MAX_TAPS,
};

#[test]
fn tap_count_for_sigma_four() {
    // sigma = 4 gives ceil(3 * 4) = 12 taps on each side, plus the center.
    assert_eq!(kernel_tap_count(12), 13);
}

#[test]
fn tap_count_has_at_least_one_side_tap() {
    assert_eq!(kernel_tap_count(0), 2);
    assert_eq!(kernel_tap_count(1), 2);
}

#[test]
fn tap_count_is_capped() {
    assert_eq!(kernel_tap_count(64), 65);
    assert_eq!(kernel_tap_count(65), MAX_TAPS);
    assert_eq!(kernel_tap_count(usize::MAX), MAX_TAPS);
}

#[test]
fn tap_count_grows_with_radius() {
    let mut prev = kernel_tap_count(0);
    for r in 1..200 {
        let n = kernel_tap_count(r);
        assert!(n >= prev);
        prev = n;
    }
}

#[test]
fn empty_region_is_skipped() {
    assert_eq!(plan_blur(0, 64, false), BlurAction::Skip);
    assert_eq!(plan_blur(64, 0, true), BlurAction::Skip);
    assert_eq!(plan_blur(0, 0, false), BlurAction::Skip);
}

#[test]
fn non_positive_sigma_copies() {
    assert_eq!(plan_blur(64, 64, 0.0_f32 <= 0.0), BlurAction::Copy);
    assert_eq!(plan_blur(1, 1, -2.0_f32 <= 0.0), BlurAction::Copy);
}

#[test]
fn positive_sigma_blurs_in_two_passes() {
    assert_eq!(plan_blur(64, 64, 4.0_f32 <= 0.0), BlurAction::TwoPass);
}

#[test]
fn pack_weights_places_taps_in_lane_zero() {
    let kernel = [0.5_f32, 0.2, 0.05];
    let table = pack_weights(0.0_f32, &kernel);
    assert_eq!(table[0], [0.5, 0.0, 0.0, 0.0]);
    assert_eq!(table[1], [0.2, 0.0, 0.0, 0.0]);
    assert_eq!(table[2], [0.05, 0.0, 0.0, 0.0]);
    for entry in table.iter().skip(3) {
        assert_eq!(*entry, [0.0; 4]);
    }
}

#[test]
fn pack_weights_full_kernel() {
    let kernel: Vec<u32> = (1..=65).collect();
    let table = pack_weights(0_u32, &kernel);
    for (i, entry) in table.iter().enumerate() {
        assert_eq!(*entry, [i as u32 + 1, 0, 0, 0]);
    }
}

#[test]
fn horizontal_pass_steps_along_x() {
    let weights = pack_weights(0.0_f32, &[1.0]);
    let p = BlurParams::for_pass(BlurPass::Horizontal, 1.0 / 64.0, 0.0_f32, 13, weights);
    assert_eq!(p.direction, [1.0 / 64.0, 0.0]);
    assert_eq!(p.tap_count, 13);
    assert_eq!(p.weights, weights);
}

#[test]
fn vertical_pass_steps_along_y() {
    let weights = pack_weights(0.0_f32, &[1.0]);
    let p = BlurParams::for_pass(BlurPass::Vertical, 1.0 / 32.0, 0.0_f32, 2, weights);
    assert_eq!(p.direction, [0.0, 1.0 / 32.0]);
    assert_eq!(p.tap_count, 2);
}

#[test]
fn identity_params_are_a_single_unit_tap() {
    let p = BlurParams::identity(0.0_f32, 1.0);
    assert_eq!(p.direction, [0.0, 0.0]);
    assert_eq!(p.tap_count, 1);
    assert_eq!(p.weights[0], [1.0, 0.0, 0.0, 0.0]);
    for entry in p.weights.iter().skip(1) {
        assert_eq!(*entry, [0.0; 4]);
    }
}

#[test]
fn cache_allocates_on_first_use() {
    let cache: IntermediateCache<&str> = IntermediateCache::new();
    assert!(cache.needs_realloc(64, 64));
    assert_eq!(cache.get(), None);
}

#[test]
fn cache_reuses_for_same_size() {
    let mut cache = IntermediateCache::new();
    cache.store("first", 64, 64);
    assert!(!cache.needs_realloc(64, 64));
    assert_eq!(cache.get(), Some(&"first"));
}

#[test]
fn cache_reallocates_when_size_changes() {
    let mut cache = IntermediateCache::new();
    cache.store("first", 64, 64);
    assert!(cache.needs_realloc(32, 64));
    assert!(cache.needs_realloc(64, 32));
    assert!(cache.needs_realloc(128, 128));
    cache.store("second", 32, 64);
    assert!(!cache.needs_realloc(32, 64));
    assert!(cache.needs_realloc(64, 64));
    assert_eq!(cache.get(), Some(&"second"));
}

#[test]
fn cache_holds_smallest_nonempty_size() {
    let mut cache = IntermediateCache::new();
    cache.store(7_u8, 1, 1);
    assert!(!cache.needs_realloc(1, 1));
    assert!(cache.needs_realloc(0, 1));
    assert_eq!(cache.get(), Some(&7));
}
