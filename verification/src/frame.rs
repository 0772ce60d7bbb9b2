//! Per-frame decisions of the path tracer, taken on plain values so that they
//! can be stated: what one wavefront dispatch records, and what one
//! path-traced render does before it dispatches (scene upload, accumulation
//! resets, adaptive range, samples per frame). The caller performs the GPU
//! work the answers ask for.
use vstd::prelude::*;

use crate::accumulation::{frame_step, Accumulation, FrameStart};
use crate::wavefront::{
    adaptive_update_due, at_least_one, plan_columns, plan_rows, plan_tiles, tile_at, tile_schedule,
    tiling_in_force, wavefront_passes, TileCapacity, TilePlan, TileSchedule, WavefrontPasses,
};

verus! {

/// Feature switches that shape a wavefront frame.
#[derive(Debug, Clone, Copy, PartialEq, Eq, Structural)]
pub struct FrameFeatures {
    /// ReSTIR DI or GI is switched on.
    pub restir_requested: bool,
    /// The ReSTIR pipelines and bindings exist.
    pub restir_ready: bool,
    /// ReSTIR temporal reuse is switched on.
    pub restir_temporal: bool,
    /// ReSTIR spatial reuse is switched on.
    pub restir_spatial: bool,
    /// Path guiding is switched on.
    pub path_guide: bool,
    /// Guided product sampling is switched on.
    pub product_sampling: bool,
    /// Adaptive sampling is switched on.
    pub adaptive: bool,
    /// Frames between adaptive variance updates.
    pub adaptive_interval: u32,
    /// Bounce limit of the bounce loop.
    pub max_bounces: u32,
}

/// What the GPU side records for one wavefront frame.
#[derive(Debug, Clone)]
pub struct FramePlan {
    /// Frame number (1-based) since the last accumulation reset.
    pub frame: u32,
    /// Zero the accumulation buffer first.
    pub clear_accum: bool,
    /// Zero the temporal history first.
    pub clear_history: bool,
    /// The tiles, in the order their passes are recorded.
    pub tiles: TilePlan,
    /// The optional passes of the frame.
    pub passes: WavefrontPasses,
    /// The passes recorded for each tile.
    pub schedule: TileSchedule,
    /// Re-estimate the adaptive variance after the tiles.
    pub adaptive_update: bool,
}

/// Passes of a frame with the given tiling and features.
pub open spec fn passes_for(use_tiling: bool, f: FrameFeatures) -> WavefrontPasses {
    WavefrontPasses {
        restir: !use_tiling && f.restir_requested && f.restir_ready,
        path_guide: !use_tiling && f.path_guide,
        adaptive: !use_tiling && f.adaptive,
        guide_enabled: if !use_tiling && f.path_guide {
            1
        } else {
            0
        },
        guide_product: if !use_tiling && f.product_sampling {
            1
        } else {
            0
        },
    }
}

/// Tile schedule of frame `frame` with the given passes and features.
pub open spec fn schedule_for(passes: WavefrontPasses, f: FrameFeatures, frame: u32) -> TileSchedule {
    TileSchedule {
        guide_sample: passes.path_guide && !passes.restir,
        restir: passes.restir,
        restir_temporal: passes.restir && f.restir_temporal && frame > 1,
        restir_spatial: passes.restir && f.restir_spatial,
        restir_keep_history: passes.restir && f.restir_temporal && !f.restir_spatial,
        bounces: if passes.restir {
            0
        } else {
            f.max_bounces
        },
        guide_update: !passes.restir && passes.path_guide,
    }
}

/// `p` is the tile plan of a frame with capacity `cap` on ray buffers of
/// `wf_w` x `wf_h`.
pub open spec fn tiles_planned(p: TilePlan, cap: TileCapacity, wf_w: u32, wf_h: u32) -> bool {
    &&& p.use_tiling == tiling_in_force(cap, wf_w, wf_h)
    &&& p.tiles@.len() == plan_rows(cap, wf_w, wf_h) * plan_columns(cap, wf_w, wf_h)
    &&& forall|k: int|
        0 <= k < p.tiles@.len() ==> #[trigger] p.tiles@[k] == tile_at(
            cap,
            wf_w,
            wf_h,
            k / plan_columns(cap, wf_w, wf_h),
            k % plan_columns(cap, wf_w, wf_h),
        )
}

/// `cap` with every extent raised to at least 1.
pub open spec fn nonempty_capacity(cap: TileCapacity) -> TileCapacity {
    TileCapacity {
        full_width: at_least_one(cap.full_width),
        full_height: at_least_one(cap.full_height),
        use_tiling: cap.use_tiling,
        width: at_least_one(cap.width),
        height: at_least_one(cap.height),
    }
}

fn one_or_more(v: u32) -> (r: u32)
    ensures
        r == at_least_one(v),
{
    if v == 0 {
        1
    } else {
        v
    }
}

/// Plan one wavefront frame. The accumulation state is consulted first
/// (`begin_wavefront_frame`); nothing is rendered when the pipeline is not
/// ready (`(None, false)`) or the sample budget is reached (`(None, true)`).
/// Otherwise the frame is cut into tiles on the ray buffers it got, the
/// tiling decides the optional passes, the passes decide each tile's
/// schedule, and the adaptive variance is re-estimated on its interval.
/// Extents of 0 (in the capacity or the buffers) count as 1, as the
/// dispatch clamps them.
pub fn plan_wavefront_frame(
    acc: &mut Accumulation,
    has_pipeline: bool,
    capacity: TileCapacity,
    buffer_extent: (u32, u32),
    features: FrameFeatures,
) -> (r: (Option<FramePlan>, bool))
    ensures
        *final(acc) == frame_step(*old(acc), has_pipeline, true).1,
        match frame_step(*old(acc), has_pipeline, true).0 {
            FrameStart::NotReady => r.0 is None && !r.1,
            FrameStart::Converged => r.0 is None && r.1,
            FrameStart::Render { frame, clear_accum, clear_history } => {
                &&& !r.1
                &&& r.0 matches Some(p) && {
                    &&& p.frame == frame
                    &&& p.clear_accum == clear_accum
                    &&& p.clear_history == clear_history
                    &&& tiles_planned(
                        p.tiles,
                        nonempty_capacity(capacity),
                        at_least_one(buffer_extent.0),
                        at_least_one(buffer_extent.1),
                    )
                    &&& p.passes == passes_for(p.tiles.use_tiling, features)
                    &&& p.schedule == schedule_for(p.passes, features, frame)
                    &&& p.adaptive_update == (p.passes.adaptive && if features.adaptive_interval
                        == 0 {
                        frame == 0
                    } else {
                        frame % features.adaptive_interval == 0
                    })
                }
            },
        },
{
    let (frame, clear_accum, clear_history) = match acc.begin_wavefront_frame(has_pipeline) {
        FrameStart::NotReady => return (None, false),
        FrameStart::Converged => return (None, true),
        FrameStart::Render { frame, clear_accum, clear_history } => (
            frame,
            clear_accum,
            clear_history,
        ),
    };
    let cap = TileCapacity {
        full_width: one_or_more(capacity.full_width),
        full_height: one_or_more(capacity.full_height),
        use_tiling: capacity.use_tiling,
        width: one_or_more(capacity.width),
        height: one_or_more(capacity.height),
    };
    let tiles = plan_tiles(cap, one_or_more(buffer_extent.0), one_or_more(buffer_extent.1));
    let passes = wavefront_passes(
        tiles.use_tiling,
        features.restir_requested,
        features.restir_ready,
        features.path_guide,
        features.product_sampling,
        features.adaptive,
    );
    let schedule = tile_schedule(
        passes,
        features.restir_temporal,
        features.restir_spatial,
        frame,
        features.max_bounces,
    );
    let adaptive_update = passes.adaptive && adaptive_update_due(
        frame,
        features.adaptive_interval,
    );
    let plan = FramePlan {
        frame,
        clear_accum,
        clear_history,
        tiles,
        passes,
        schedule,
        adaptive_update,
    };
    (Some(plan), false)
}

/// How the scene is rebuilt when it is uploaded.
#[derive(Debug, Clone, Copy, PartialEq, Eq, Structural)]
pub enum SceneBuild {
    /// GPU BVH with refit: the instances are uploaded and refitted on the GPU.
    GpuRefit,
    /// BVH built on the GPU, then uploaded with the instances.
    GpuBvh,
    /// BVH built on the CPU, then uploaded with the instances.
    CpuBvh,
}

/// Host-side state of the path-traced view, kept between renders.
#[derive(Debug, Clone, Copy, PartialEq, Eq, Structural)]
pub struct PtViewState {
    /// The scene must be uploaded again.
    pub scene_dirty: bool,
    /// The environment map must be handed to the tracer again.
    pub env_dirty: bool,
    /// An accumulation reset was requested from outside.
    pub accum_reset: bool,
    /// A camera/scene snapshot has been taken.
    pub snap_valid: bool,
    /// Samples dispatched per render (adjusted by auto-SPP).
    pub samples_per_update: u32,
}

/// What a render brings: the caller's options and the measurements the
/// decisions need, with every float comparison already made.
#[derive(Debug, Clone, Copy, PartialEq, Eq, Structural)]
pub struct PtFrameInput {
    /// The path tracer was created for this render.
    pub tracer_created: bool,
    /// Frames the tracer has accumulated so far.
    pub frame_count: u32,
    /// Auto-SPP or camera snapping is on.
    pub snap_enabled: bool,
    /// The snapshot interval (one target frame) has elapsed.
    pub snap_interval_elapsed: bool,
    /// Object animation is running with a hash effect.
    pub anim_active: bool,
    /// There are instances to upload.
    pub has_instances: bool,
    /// The BVH is built on the GPU.
    pub gpu_bvh: bool,
    /// The GPU BVH is refitted instead of rebuilt.
    pub bvh_refit: bool,
    /// The environment map is switched on.
    pub env_map_enabled: bool,
    /// The global samples knob.
    pub samples: u32,
    /// Samples per render are adjusted automatically.
    pub auto_spp: bool,
    /// Samples per render asked for by the options.
    pub samples_per_update: u32,
    /// The last render took under 85% of the target frame time.
    pub render_fast: bool,
    /// The last render took over 115% of the target frame time.
    pub render_slow: bool,
}

/// What the caller does for a render, in this order.
#[derive(Debug, Clone, Copy, PartialEq, Eq, Structural)]
pub struct PtFrameActions {
    /// Reset accumulation first (an outside request was pending).
    pub reset_requested: bool,
    /// Camera and scene may be updated this render.
    pub allow_update: bool,
    /// Take a new camera/animation snapshot.
    pub take_snapshot: bool,
    /// Render from the stored snapshot instead of the live camera.
    pub use_snapshot: bool,
    /// Upload the scene, built this way (then reset accumulation).
    pub upload: Option<SceneBuild>,
    /// The upload is for an animated scene.
    pub animated: bool,
    /// Animation moved the scene: mark history dirty and reset accumulation.
    pub reset_by_animation: bool,
    /// Hand the environment map to the tracer again.
    pub refresh_env: bool,
    /// Adaptive sampling's per-pixel minimum.
    pub adaptive_min: u32,
    /// Adaptive sampling's per-pixel maximum.
    pub adaptive_max: u32,
    /// Samples to dispatch this render.
    pub samples_this_frame: u32,
}

/// The larger of two values.
pub open spec fn max_u32(a: u32, b: u32) -> u32 {
    if a < b {
        b
    } else {
        a
    }
}

/// Samples dispatched by a render: the requested count (at least 1); with
/// auto-SPP the count carried over, one more after a fast render (at most
/// 64) or one fewer after a slow one (at least 1).
pub open spec fn samples_for_frame(s: PtViewState, i: PtFrameInput) -> u32 {
    if !i.auto_spp {
        max_u32(i.samples_per_update, 1)
    } else {
        let base = max_u32(s.samples_per_update, 1);
        if i.render_fast {
            if base + 1 < 64 {
                (base + 1) as u32
            } else {
                64
            }
        } else if i.render_slow {
            max_u32((base - 1) as u32, 1)
        } else {
            base
        }
    }
}

/// One render's decisions and the view state after them. A new tracer makes
/// the scene dirty and the environment clean. A pending reset empties the
/// accumulation, so a snapshot is always allowed then. Updates are allowed
/// without snapping, once the interval elapsed, without a snapshot, or on an
/// empty accumulation. The scene is uploaded when updates are allowed, it is
/// dirty or animating, and there is something to upload.
pub open spec fn pt_frame_step(s: PtViewState, i: PtFrameInput) -> (PtViewState, PtFrameActions) {
    let allow = updates_allowed(s, i);
    let upload = uploads_scene(s, i);
    let refresh_env = i.env_map_enabled && s.env_dirty && !i.tracer_created;
    (
        PtViewState {
            scene_dirty: (s.scene_dirty || i.tracer_created) && !upload,
            env_dirty: s.env_dirty && !i.tracer_created && !refresh_env,
            accum_reset: false,
            snap_valid: s.snap_valid || (allow && i.snap_enabled),
            samples_per_update: samples_for_frame(s, i),
        },
        PtFrameActions {
            reset_requested: s.accum_reset,
            allow_update: allow,
            take_snapshot: allow && i.snap_enabled,
            use_snapshot: i.snap_enabled && !allow,
            upload: if upload {
                Some(scene_build(i))
            } else {
                None
            },
            animated: i.anim_active && allow,
            reset_by_animation: i.anim_active && allow,
            refresh_env,
            adaptive_min: max_u32(i.samples / 16, 8),
            adaptive_max: max_u32(i.samples, max_u32(i.samples / 16, 8)),
            samples_this_frame: samples_for_frame(s, i),
        },
    )
}

/// Camera and scene may change this render: snapping is off, the interval
/// elapsed, no snapshot exists yet, or the accumulation is empty (a pending
/// reset empties it).
pub open spec fn updates_allowed(s: PtViewState, i: PtFrameInput) -> bool {
    ||| !i.snap_enabled
    ||| i.snap_interval_elapsed
    ||| !s.snap_valid
    ||| s.accum_reset
    ||| i.frame_count == 0
}

/// The scene is uploaded: updates are allowed, it is dirty (or the tracer is
/// new) or animating, and there are instances.
pub open spec fn uploads_scene(s: PtViewState, i: PtFrameInput) -> bool {
    &&& updates_allowed(s, i)
    &&& (s.scene_dirty || i.tracer_created || i.anim_active)
    &&& i.has_instances
}

/// How an uploaded scene is built, from the BVH options.
pub open spec fn scene_build(i: PtFrameInput) -> SceneBuild {
    if !i.gpu_bvh {
        SceneBuild::CpuBvh
    } else if i.bvh_refit {
        SceneBuild::GpuRefit
    } else {
        SceneBuild::GpuBvh
    }
}

/// Decide what one path-traced render does before it dispatches, and the
/// view state it leaves behind, exactly as `pt_frame_step` states.
pub fn plan_pt_frame(state: PtViewState, input: PtFrameInput) -> (r: (PtViewState, PtFrameActions))
    ensures
        r == pt_frame_step(state, input),
{
    let scene_dirty = state.scene_dirty || input.tracer_created;
    let env_dirty = state.env_dirty && !input.tracer_created;
    let frames = if state.accum_reset {
        0
    } else {
        input.frame_count
    };
    let allow = !input.snap_enabled || input.snap_interval_elapsed || !state.snap_valid || frames
        == 0;
    let animated = input.anim_active && allow;
    let upload = allow && (scene_dirty || animated) && input.has_instances;
    let build = if input.gpu_bvh && input.bvh_refit {
        SceneBuild::GpuRefit
    } else if input.gpu_bvh {
        SceneBuild::GpuBvh
    } else {
        SceneBuild::CpuBvh
    };
    let refresh_env = input.env_map_enabled && env_dirty;
    let sixteenth = input.samples / 16;
    let adaptive_min = if sixteenth < 8 {
        8
    } else {
        sixteenth
    };
    let adaptive_max = if input.samples < adaptive_min {
        adaptive_min
    } else {
        input.samples
    };
    let samples = if !input.auto_spp {
        if input.samples_per_update < 1 {
            1
        } else {
            input.samples_per_update
        }
    } else {
        let base = if state.samples_per_update < 1 {
            1
        } else {
            state.samples_per_update
        };
        if input.render_fast {
            if base < 63 {
                base + 1
            } else {
                64
            }
        } else if input.render_slow {
            if base - 1 < 1 {
                1
            } else {
                base - 1
            }
        } else {
            base
        }
    };
    let next = PtViewState {
        scene_dirty: scene_dirty && !upload,
        env_dirty: env_dirty && !refresh_env,
        accum_reset: false,
        snap_valid: state.snap_valid || (allow && input.snap_enabled),
        samples_per_update: samples,
    };
    let actions = PtFrameActions {
        reset_requested: state.accum_reset,
        allow_update: allow,
        take_snapshot: allow && input.snap_enabled,
        use_snapshot: input.snap_enabled && !allow,
        upload: if upload {
            Some(build)
        } else {
            None
        },
        animated,
        reset_by_animation: animated,
        refresh_env,
        adaptive_min,
        adaptive_max,
        samples_this_frame: samples,
    };
    (next, actions)
}

/// Samples per render stay at least 1, and with auto-SPP never climb above
/// 64 from a count that was at most 64; the count dispatched is the count
/// carried into the next render.
pub proof fn lemma_pt_samples_bounded(s: PtViewState, i: PtFrameInput)
    ensures
        pt_frame_step(s, i).1.samples_this_frame >= 1,
        pt_frame_step(s, i).0.samples_per_update == pt_frame_step(s, i).1.samples_this_frame,
        i.auto_spp && s.samples_per_update <= 64 ==> pt_frame_step(s, i).1.samples_this_frame
            <= 64,
{
}

/// The adaptive per-pixel range is never empty: at least 8 samples, and the
/// maximum is at least the minimum and the global samples knob.
pub proof fn lemma_pt_adaptive_range(s: PtViewState, i: PtFrameInput)
    ensures
        8 <= pt_frame_step(s, i).1.adaptive_min <= pt_frame_step(s, i).1.adaptive_max,
        pt_frame_step(s, i).1.adaptive_max >= i.samples,
{
}

/// An upload leaves the scene clean; without one the scene stays as dirty
/// as it was (a new tracer makes it dirty). Pending reset requests are
/// always consumed, and without snapping every render may update.
pub proof fn lemma_pt_scene_and_resets(s: PtViewState, i: PtFrameInput)
    ensures
        pt_frame_step(s, i).1.upload is Some ==> !pt_frame_step(s, i).0.scene_dirty,
        pt_frame_step(s, i).1.upload is None ==> pt_frame_step(s, i).0.scene_dirty == (
        s.scene_dirty || i.tracer_created),
        !pt_frame_step(s, i).0.accum_reset,
        pt_frame_step(s, i).1.reset_requested == s.accum_reset,
        !i.snap_enabled ==> pt_frame_step(s, i).1.allow_update && !pt_frame_step(
            s,
            i,
        ).1.use_snapshot,
{
}


/// An uploaded scene is built on the CPU exactly when the GPU BVH is off,
/// refitted on the GPU exactly when both the GPU BVH and refit are on, and
/// rebuilt on the GPU otherwise.
pub proof fn lemma_scene_build_follows_options(s: PtViewState, i: PtFrameInput)
    ensures
        pt_frame_step(s, i).1.upload matches Some(b) ==> {
            &&& (b == SceneBuild::CpuBvh) <==> !i.gpu_bvh
            &&& (b == SceneBuild::GpuRefit) <==> (i.gpu_bvh && i.bvh_refit)
            &&& (b == SceneBuild::GpuBvh) <==> (i.gpu_bvh && !i.bvh_refit)
        },
{
}


/// Updates are always allowed without snapping, once the snapshot interval
/// has elapsed, before any snapshot, after a pending reset or on an empty
/// accumulation, and refused otherwise; a snapshot is taken exactly when
/// snapping and allowed, and used exactly when snapping and refused. The
/// scene is uploaded only when updates are allowed and there are instances,
/// always when it is then dirty or the tracer is new, and animation counts
/// only on allowed renders.
pub proof fn lemma_pt_updates_and_uploads(s: PtViewState, i: PtFrameInput)
    ensures
        (!i.snap_enabled || i.snap_interval_elapsed || !s.snap_valid || s.accum_reset
            || i.frame_count == 0) ==> pt_frame_step(s, i).1.allow_update,
        (i.snap_enabled && !i.snap_interval_elapsed && s.snap_valid && !s.accum_reset
            && i.frame_count > 0) ==> !pt_frame_step(s, i).1.allow_update,
        pt_frame_step(s, i).1.take_snapshot == (i.snap_enabled && pt_frame_step(s, i).1.allow_update),
        pt_frame_step(s, i).1.use_snapshot == (i.snap_enabled && !pt_frame_step(s, i).1.allow_update),
        pt_frame_step(s, i).1.upload is Some ==> pt_frame_step(s, i).1.allow_update && i.has_instances,
        pt_frame_step(s, i).1.allow_update && i.has_instances && (s.scene_dirty || i.tracer_created
            || i.anim_active) ==> pt_frame_step(s, i).1.upload is Some,
        pt_frame_step(s, i).1.animated == (i.anim_active && pt_frame_step(s, i).1.allow_update),
        pt_frame_step(s, i).1.reset_by_animation == pt_frame_step(s, i).1.animated,
{
}

/// The environment map is handed over again exactly when it is enabled and
/// dirty on an existing tracer; afterwards it is clean unless it was dirty
/// and disabled.
pub proof fn lemma_pt_env_refresh(s: PtViewState, i: PtFrameInput)
    ensures
        pt_frame_step(s, i).1.refresh_env == (i.env_map_enabled && s.env_dirty && !i.tracer_created),
        pt_frame_step(s, i).0.env_dirty == (s.env_dirty && !i.tracer_created && !i.env_map_enabled),
{
}

/// The adaptive minimum is the larger of a sixteenth of the samples knob and
/// 8; the maximum is the larger of the knob and that minimum.
pub proof fn lemma_pt_adaptive_exact(s: PtViewState, i: PtFrameInput)
    ensures
        pt_frame_step(s, i).1.adaptive_min >= 8,
        pt_frame_step(s, i).1.adaptive_min >= i.samples / 16,
        pt_frame_step(s, i).1.adaptive_min == 8 || pt_frame_step(s, i).1.adaptive_min == i.samples / 16,
        pt_frame_step(s, i).1.adaptive_max >= i.samples,
        pt_frame_step(s, i).1.adaptive_max == i.samples || pt_frame_step(s, i).1.adaptive_max
            == pt_frame_step(s, i).1.adaptive_min,
{
}

/// Samples per render: without auto-SPP the requested count (0 counts as 1);
/// with auto-SPP the carried count (0 counts as 1), one more after a fast
/// render up to 64, one fewer after a slow one down to 1, else unchanged.
pub proof fn lemma_pt_samples_steps(s: PtViewState, i: PtFrameInput)
    ensures
        !i.auto_spp ==> pt_frame_step(s, i).1.samples_this_frame == if i.samples_per_update == 0 {
            1
        } else {
            i.samples_per_update
        },
        i.auto_spp && i.render_fast && 1 <= s.samples_per_update < 64 ==> pt_frame_step(s, i).1.samples_this_frame
            == s.samples_per_update + 1,
        i.auto_spp && i.render_fast && s.samples_per_update >= 64 ==> pt_frame_step(s, i).1.samples_this_frame == 64,
        i.auto_spp && !i.render_fast && i.render_slow && s.samples_per_update > 1
            ==> pt_frame_step(s, i).1.samples_this_frame == s.samples_per_update - 1,
        i.auto_spp && !i.render_fast && i.render_slow && s.samples_per_update <= 1
            ==> pt_frame_step(s, i).1.samples_this_frame == 1,
        i.auto_spp && !i.render_fast && !i.render_slow && s.samples_per_update >= 1
            ==> pt_frame_step(s, i).1.samples_this_frame == s.samples_per_update,
        i.auto_spp && s.samples_per_update == 0 && !i.render_fast ==> pt_frame_step(s, i).1.samples_this_frame == 1,
{
}


/// Tiling switches off every pass that needs the whole frame; ReSTIR runs
/// only when requested and ready, replaces the bounce loop (no bounces, no
/// guided sampling or update), and its temporal reuse needs a previous
/// frame; without ReSTIR the bounce loop runs the configured bounces.
pub proof fn lemma_passes_and_schedule(use_tiling: bool, f: FrameFeatures, frame: u32)
    ensures
        use_tiling ==> !passes_for(use_tiling, f).restir && !passes_for(use_tiling, f).path_guide
            && !passes_for(use_tiling, f).adaptive && passes_for(use_tiling, f).guide_enabled == 0
            && passes_for(use_tiling, f).guide_product == 0,
        passes_for(use_tiling, f).restir ==> f.restir_requested && f.restir_ready,
        passes_for(use_tiling, f).restir ==> schedule_for(passes_for(use_tiling, f), f, frame).bounces
            == 0 && !schedule_for(passes_for(use_tiling, f), f, frame).guide_sample
            && !schedule_for(passes_for(use_tiling, f), f, frame).guide_update,
        !passes_for(use_tiling, f).restir ==> schedule_for(passes_for(use_tiling, f), f, frame).bounces
            == f.max_bounces && !schedule_for(passes_for(use_tiling, f), f, frame).restir_temporal
            && !schedule_for(passes_for(use_tiling, f), f, frame).restir_spatial,
        frame <= 1 ==> !schedule_for(passes_for(use_tiling, f), f, frame).restir_temporal,
        (passes_for(use_tiling, f).guide_enabled == 1) == passes_for(use_tiling, f).path_guide,
{
}

} // verus!
