use squarebob::defaults::{
    default_adaptive_interval, default_band_count, default_emissive_samples, default_false,
    default_inertia_enabled, default_mat_seed, default_oidn_adaptive_clamp, default_oidn_auto,
    default_oidn_interval, default_oidn_mode, default_oidn_nan_protect, default_oidn_quality,
    default_quant_levels, default_restir_m_max, default_spectral_samples, default_svo_resolution,
    default_true,
};
use squarebob::modes::{OidnModeOption, OidnQualityOption};
use squarebob::scan::{LodExpandInfo, LodKind};
use squarebob::wavefront::{
    grown_tile_capacity, swap_buffer_index, tile_offset, WavefrontConfig, WfDims,
    DEFAULT_TILE_CAPACITY, TILE_SLOT_STRIDE, WF_COUNTS_SIZE, WF_DIMS_SIZE,
};

#[test]
fn tile_offsets_use_the_slot_stride() {
    assert_eq!(tile_offset(0), 0);
    assert_eq!(tile_offset(3), 768);
    assert_eq!(TILE_SLOT_STRIDE, 256);
    assert_eq!(WF_DIMS_SIZE, std::mem::size_of::<WfDims>() as u64);
    assert_eq!(WF_COUNTS_SIZE, 16);
}

#[test]
fn tile_capacity_grows_to_power_of_two() {
    assert_eq!(grown_tile_capacity(64, 0), None);
    assert_eq!(grown_tile_capacity(64, 64), None);
    assert_eq!(grown_tile_capacity(64, 65), Some(128));
    assert_eq!(grown_tile_capacity(0, 3), Some(DEFAULT_TILE_CAPACITY));
    assert_eq!(grown_tile_capacity(128, 1000), Some(1024));
}

#[test]
fn ping_pong_alternates() {
    assert_eq!(swap_buffer_index(0), 1);
    assert_eq!(swap_buffer_index(1), 0);
}

#[test]
fn wavefront_config_default_is_off() {
    let c = WavefrontConfig::default();
    assert!(!c.enabled);
    assert_eq!(c.tile_size, 0);
    let d = WfDims { full_width: 1, full_height: 2, tile_width: 3, tile_height: 4, tile_x: 5, tile_y: 6, _pad: [0; 2] };
    assert_eq!(d.tile_y, 6);
}

#[test]
fn setting_defaults() {
    assert_eq!(default_oidn_mode(), OidnModeOption::ColorAlbedoNormal);
    assert_eq!(default_oidn_quality(), OidnQualityOption::Base);
    assert!(default_oidn_auto() && default_oidn_nan_protect() && default_oidn_adaptive_clamp());
    assert_eq!(default_oidn_interval(), 128);
    assert!(default_true() && !default_false());
    assert_eq!(default_mat_seed(), 2654435761);
    assert_eq!((default_quant_levels(), default_band_count()), (5, 8));
    assert!(default_inertia_enabled());
    assert_eq!((default_restir_m_max(), default_svo_resolution()), (30, 64));
    assert_eq!(default_adaptive_interval(), 4);
    assert_eq!((default_spectral_samples(), default_emissive_samples()), (2, 1));
}

#[test]
fn lod_info_holds_its_bucket() {
    let info = LodExpandInfo { parent_dir: "/a".to_string(), kind: LodKind::BelowMin, min_threshold: 1, max_threshold: 9 };
    assert_eq!(info.clone(), info);
    assert_ne!(LodKind::BelowMin, LodKind::AboveMax);
}

use squarebob::wavefront::{
    adaptive_update_due, pack_tile_slots, plan_tile_capacity, plan_tiles, prepare_tile_upload,
    tile_schedule, wavefront_passes, workgroups_64, workgroups_8x8, TileCapacity,
};

fn covering(tiles: &[WfDims], x: u32, y: u32) -> usize {
    tiles
        .iter()
        .filter(|t| t.tile_x <= x && x < t.tile_x + t.tile_width && t.tile_y <= y && y < t.tile_y + t.tile_height)
        .count()
}

#[test]
fn capacity_without_tiling_covers_frame() {
    let c = plan_tile_capacity(0, 0, 0);
    assert_eq!(c, TileCapacity { full_width: 1, full_height: 1, use_tiling: false, width: 1, height: 1 });
    let c = plan_tile_capacity(640, 480, 1024);
    assert!(!c.use_tiling);
    assert_eq!((c.width, c.height), (640, 480));
}

#[test]
fn capacity_with_tiling_is_clamped_to_tile() {
    let c = plan_tile_capacity(1000, 300, 256);
    assert!(c.use_tiling);
    assert_eq!((c.full_width, c.full_height, c.width, c.height), (1000, 300, 256, 256));
    let c = plan_tile_capacity(1000, 100, 256);
    assert_eq!((c.width, c.height), (256, 100));
}

#[test]
fn single_tile_when_buffers_cover_frame() {
    let c = plan_tile_capacity(640, 480, 0);
    let p = plan_tiles(c, 640, 480);
    assert!(!p.use_tiling);
    assert_eq!(p.tiles.len(), 1);
    let t = p.tiles[0];
    assert_eq!((t.tile_x, t.tile_y, t.tile_width, t.tile_height), (0, 0, 640, 480));
    assert_eq!((t.full_width, t.full_height), (640, 480));
}

#[test]
fn tiles_partition_the_frame() {
    let c = plan_tile_capacity(1000, 300, 256);
    let p = plan_tiles(c, 256, 256);
    assert!(p.use_tiling);
    assert_eq!(p.tiles.len(), 4 * 2);
    let last = p.tiles[7];
    assert_eq!((last.tile_x, last.tile_y, last.tile_width, last.tile_height), (768, 256, 232, 44));
    for y in (0..300).step_by(7) {
        for x in (0..1000).step_by(13) {
            assert_eq!(covering(&p.tiles, x, y), 1, "pixel ({x},{y})");
        }
    }
    assert_eq!(covering(&p.tiles, 999, 299), 1);
}

#[test]
fn clamped_buffers_force_tiling() {
    let c = plan_tile_capacity(100, 50, 0);
    let p = plan_tiles(c, 30, 50);
    assert!(p.use_tiling);
    assert_eq!(p.tiles.len(), 4);
    let widths: Vec<u32> = p.tiles.iter().map(|t| t.tile_width).collect();
    assert_eq!(widths, vec![30, 30, 30, 10]);
    for x in 0..100 {
        assert_eq!(covering(&p.tiles, x, 49), 1);
    }
}

#[test]
fn tiling_switches_off_whole_frame_passes() {
    let p = wavefront_passes(true, true, true, true, true, true);
    assert!(!p.restir && !p.path_guide && !p.adaptive);
    assert_eq!((p.guide_enabled, p.guide_product), (0, 0));
    let p = wavefront_passes(false, true, false, true, false, true);
    assert!(!p.restir && p.path_guide && p.adaptive);
    assert_eq!((p.guide_enabled, p.guide_product), (1, 0));
}

#[test]
fn tile_schedule_follows_restir() {
    let with_restir = wavefront_passes(false, true, true, true, true, false);
    let s = tile_schedule(with_restir, true, false, 1, 4);
    assert!(s.restir && !s.restir_temporal && !s.restir_spatial && s.restir_keep_history);
    assert_eq!(s.bounces, 0);
    assert!(!s.guide_sample && !s.guide_update);
    let s = tile_schedule(with_restir, true, true, 2, 4);
    assert!(s.restir_temporal && s.restir_spatial && !s.restir_keep_history);
    let plain = wavefront_passes(false, false, true, true, false, false);
    let s = tile_schedule(plain, true, true, 5, 4);
    assert!(!s.restir && s.guide_sample && s.guide_update);
    assert_eq!(s.bounces, 4);
}

#[test]
fn workgroup_counts_round_up() {
    assert_eq!(workgroups_8x8(0, 1), (0, 1));
    assert_eq!(workgroups_8x8(16, 17), (2, 3));
    assert_eq!(workgroups_64(64), 1);
    assert_eq!(workgroups_64(65), 2);
    assert_eq!(workgroups_64(u32::MAX), 67108864);
    assert!(adaptive_update_due(8, 4));
    assert!(!adaptive_update_due(9, 4));
    assert!(adaptive_update_due(0, 0) && !adaptive_update_due(3, 0));
}

#[test]
fn slots_hold_one_record_each() {
    let records: Vec<u8> = (1..=6).collect();
    let blob = pack_tile_slots(&records, 3);
    assert_eq!(blob.len(), 2 * TILE_SLOT_STRIDE as usize);
    assert_eq!(&blob[0..4], &[1, 2, 3, 0]);
    assert_eq!(&blob[256..260], &[4, 5, 6, 0]);
    assert!(blob[3..256].iter().all(|&b| b == 0));
}

#[test]
fn tile_upload_grows_capacity_and_packs_both_blobs() {
    assert!(prepare_tile_upload(64, &[], &[]).is_none());
    let dims = vec![7u8; 32 * 65];
    let counts = vec![9u8; 16 * 65];
    let u = prepare_tile_upload(64, &dims, &counts).unwrap();
    assert_eq!(u.new_capacity, Some(128));
    assert_eq!(u.dims_blob.len(), 65 * 256);
    assert_eq!(u.counts_blob.len(), 65 * 256);
    assert_eq!((u.dims_blob[31], u.dims_blob[32]), (7, 0));
    assert_eq!((u.counts_blob[256 + 15], u.counts_blob[256 + 16]), (9, 0));
    let u = prepare_tile_upload(128, &dims, &counts).unwrap();
    assert_eq!(u.new_capacity, None);
}

#[test]
fn tile_capacity_growth_reaches_the_top_power() {
    assert_eq!(grown_tile_capacity(64, 0x4000_0001), Some(0x8000_0000));
    assert_eq!(grown_tile_capacity(64, 0x8000_0000), Some(0x8000_0000));
    assert_eq!(grown_tile_capacity(1, 2), Some(DEFAULT_TILE_CAPACITY));
}
