use squarebob::accumulation::Accumulation;
use squarebob::frame::{
    plan_pt_frame, plan_wavefront_frame, FrameFeatures, PtFrameInput, PtViewState, SceneBuild,
};
use squarebob::wavefront::plan_tile_capacity;

fn features() -> FrameFeatures {
    FrameFeatures {
        restir_requested: true,
        restir_ready: true,
        restir_temporal: true,
        restir_spatial: false,
        path_guide: true,
        product_sampling: true,
        adaptive: true,
        adaptive_interval: 4,
        max_bounces: 6,
    }
}

#[test]
fn wavefront_frame_waits_for_pipeline_and_scene() {
    let mut acc = Accumulation::new(64, 64);
    let cap = plan_tile_capacity(64, 64, 0);
    let (plan, converged) = plan_wavefront_frame(&mut acc, true, cap, (64, 64), features());
    assert!(plan.is_none() && !converged);
    acc.scene_uploaded();
    let (plan, converged) = plan_wavefront_frame(&mut acc, false, cap, (64, 64), features());
    assert!(plan.is_none() && !converged);
    assert_eq!(acc.frame_count, 0);
}

#[test]
fn wavefront_frame_untiled_runs_every_pass() {
    let mut acc = Accumulation::new(64, 48);
    acc.scene_uploaded();
    let cap = plan_tile_capacity(64, 48, 0);
    let (plan, converged) = plan_wavefront_frame(&mut acc, true, cap, (64, 48), features());
    assert!(!converged);
    let plan = plan.expect("frame is rendered");
    assert_eq!(plan.frame, 1);
    assert!(plan.clear_accum);
    assert!(!plan.tiles.use_tiling);
    assert_eq!(plan.tiles.tiles.len(), 1);
    assert_eq!(plan.tiles.tiles[0].tile_width, 64);
    assert_eq!(plan.tiles.tiles[0].tile_height, 48);
    assert!(plan.passes.restir && plan.passes.path_guide && plan.passes.adaptive);
    assert_eq!(plan.passes.guide_enabled, 1);
    assert!(plan.schedule.restir && !plan.schedule.restir_temporal);
    assert!(plan.schedule.restir_keep_history);
    assert_eq!(plan.schedule.bounces, 0);
    assert!(!plan.adaptive_update);
    assert_eq!(acc.frame_count, 1);
    for _ in 0..3 {
        plan_wavefront_frame(&mut acc, true, cap, (64, 48), features());
    }
    let (plan, _) = plan_wavefront_frame(&mut acc, true, cap, (64, 48), features());
    let plan = plan.expect("frame is rendered");
    assert_eq!(plan.frame, 5);
    assert!(plan.schedule.restir_temporal);
    let (plan, _) = plan_wavefront_frame(&mut acc, true, cap, (64, 48), features());
    // Frame 6 is not a multiple of 4; frame 8 is.
    assert!(!plan.expect("frame").adaptive_update);
}

#[test]
fn wavefront_frame_tiling_switches_whole_frame_passes_off() {
    let mut acc = Accumulation::new(100, 70);
    acc.scene_uploaded();
    let cap = plan_tile_capacity(100, 70, 32);
    let (plan, _) = plan_wavefront_frame(&mut acc, true, cap, (32, 32), features());
    let plan = plan.expect("frame is rendered");
    assert!(plan.tiles.use_tiling);
    assert_eq!(plan.tiles.tiles.len(), 4 * 3);
    assert!(!plan.passes.restir && !plan.passes.path_guide && !plan.passes.adaptive);
    assert_eq!(plan.schedule.bounces, 6);
    assert!(!plan.adaptive_update);
    let last = plan.tiles.tiles[11];
    assert_eq!((last.tile_x, last.tile_y, last.tile_width, last.tile_height), (96, 64, 4, 6));
}

#[test]
fn wavefront_frame_reports_convergence() {
    let mut acc = Accumulation::new(8, 8);
    acc.scene_uploaded();
    acc.max_samples = 1;
    let cap = plan_tile_capacity(8, 8, 0);
    assert!(plan_wavefront_frame(&mut acc, true, cap, (8, 8), features()).0.is_some());
    let (plan, converged) = plan_wavefront_frame(&mut acc, true, cap, (8, 8), features());
    assert!(plan.is_none() && converged);
    assert_eq!(acc.frame_count, 1);
}

fn input() -> PtFrameInput {
    PtFrameInput {
        tracer_created: false,
        frame_count: 10,
        snap_enabled: false,
        snap_interval_elapsed: false,
        anim_active: false,
        has_instances: true,
        gpu_bvh: false,
        bvh_refit: false,
        env_map_enabled: true,
        samples: 256,
        auto_spp: false,
        samples_per_update: 0,
        render_fast: false,
        render_slow: false,
    }
}

fn state() -> PtViewState {
    PtViewState { scene_dirty: false, env_dirty: false, accum_reset: false, snap_valid: false, samples_per_update: 1 }
}

#[test]
fn new_tracer_uploads_the_scene_once() {
    let i = PtFrameInput { tracer_created: true, ..input() };
    let (next, act) = plan_pt_frame(PtViewState { env_dirty: true, ..state() }, i);
    assert_eq!(act.upload, Some(SceneBuild::CpuBvh));
    assert!(!next.scene_dirty);
    assert!(!act.refresh_env && !next.env_dirty);
    let (next2, act2) = plan_pt_frame(next, input());
    assert_eq!(act2.upload, None);
    assert_eq!(next2, next);
}

#[test]
fn scene_build_follows_bvh_options() {
    let s = PtViewState { scene_dirty: true, ..state() };
    let refit = PtFrameInput { gpu_bvh: true, bvh_refit: true, ..input() };
    assert_eq!(plan_pt_frame(s, refit).1.upload, Some(SceneBuild::GpuRefit));
    let gpu = PtFrameInput { gpu_bvh: true, ..input() };
    assert_eq!(plan_pt_frame(s, gpu).1.upload, Some(SceneBuild::GpuBvh));
    let empty = PtFrameInput { has_instances: false, ..input() };
    let (next, act) = plan_pt_frame(s, empty);
    assert_eq!(act.upload, None);
    assert!(next.scene_dirty);
}

#[test]
fn snapshot_throttles_updates_between_target_frames() {
    let i = PtFrameInput { snap_enabled: true, anim_active: true, ..input() };
    let (next, act) = plan_pt_frame(state(), i);
    assert!(act.allow_update && act.take_snapshot && !act.use_snapshot);
    assert!(act.animated && act.reset_by_animation);
    assert!(next.snap_valid);
    let (_, act) = plan_pt_frame(next, i);
    assert!(!act.allow_update && act.use_snapshot && !act.reset_by_animation);
    assert_eq!(act.upload, None);
    let (_, act) = plan_pt_frame(next, PtFrameInput { snap_interval_elapsed: true, ..i });
    assert!(act.allow_update);
    let (after, act) = plan_pt_frame(PtViewState { accum_reset: true, ..next }, i);
    assert!(act.reset_requested && act.allow_update && !after.accum_reset);
}

#[test]
fn adaptive_range_derives_from_samples() {
    let (_, act) = plan_pt_frame(state(), input());
    assert_eq!((act.adaptive_min, act.adaptive_max), (16, 256));
    let (_, act) = plan_pt_frame(state(), PtFrameInput { samples: 4, ..input() });
    assert_eq!((act.adaptive_min, act.adaptive_max), (8, 8));
}

#[test]
fn auto_spp_steps_samples_per_frame() {
    let (next, act) = plan_pt_frame(state(), input());
    assert_eq!(act.samples_this_frame, 1);
    assert_eq!(next.samples_per_update, 1);
    let fixed = PtFrameInput { samples_per_update: 5, ..input() };
    assert_eq!(plan_pt_frame(state(), fixed).1.samples_this_frame, 5);
    let fast = PtFrameInput { auto_spp: true, render_fast: true, ..input() };
    let s = PtViewState { samples_per_update: 63, ..state() };
    let (next, act) = plan_pt_frame(s, fast);
    assert_eq!(act.samples_this_frame, 64);
    assert_eq!(plan_pt_frame(next, fast).1.samples_this_frame, 64);
    let slow = PtFrameInput { auto_spp: true, render_slow: true, ..input() };
    assert_eq!(plan_pt_frame(PtViewState { samples_per_update: 3, ..state() }, slow).1.samples_this_frame, 2);
    assert_eq!(plan_pt_frame(state(), slow).1.samples_this_frame, 1);
}

#[test]
fn env_map_is_refreshed_when_dirty() {
    let s = PtViewState { env_dirty: true, ..state() };
    let (next, act) = plan_pt_frame(s, input());
    assert!(act.refresh_env && !next.env_dirty);
    let (next, act) = plan_pt_frame(s, PtFrameInput { env_map_enabled: false, ..input() });
    assert!(!act.refresh_env && next.env_dirty);
}

#[test]
fn wavefront_frame_treats_empty_extents_as_one() {
    let mut acc = Accumulation::new(0, 0);
    acc.scene_uploaded();
    let cap = squarebob::wavefront::TileCapacity {
        full_width: 0,
        full_height: 0,
        use_tiling: false,
        width: 0,
        height: 0,
    };
    let (plan, converged) = plan_wavefront_frame(&mut acc, true, cap, (0, 0), features());
    assert!(!converged);
    let plan = plan.expect("frame is rendered");
    assert_eq!(plan.tiles.tiles.len(), 1);
    let t = plan.tiles.tiles[0];
    assert_eq!((t.full_width, t.full_height, t.tile_width, t.tile_height), (1, 1, 1, 1));
}
