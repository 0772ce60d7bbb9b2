use squarebob::accumulation::{Accumulation, FrameStart, DEFAULT_MAX_SAMPLES};
use squarebob::sampling::{AdaptiveBudget, SpectralOptions};

fn ready(w: u32, h: u32) -> Accumulation {
    let mut a = Accumulation::new(w, h);
    a.scene_uploaded();
    a
}

#[test]
fn fresh_state_is_not_ready() {
    let mut a = Accumulation::new(64, 32);
    assert_eq!(a.max_samples, DEFAULT_MAX_SAMPLES);
    assert_eq!(a.begin_frame(true), FrameStart::NotReady);
    assert_eq!(a.frame_count, 0);
    a.scene_uploaded();
    assert_eq!(a.begin_frame(false), FrameStart::NotReady);
    assert_eq!(a.frame_count, 0);
}

#[test]
fn first_frame_clears_accumulation() {
    let mut a = ready(64, 32);
    assert_eq!(a.begin_frame(true), FrameStart::Render { frame: 1, clear_accum: true, clear_history: false });
    assert_eq!(a.begin_frame(true), FrameStart::Render { frame: 2, clear_accum: false, clear_history: false });
    assert_eq!(a.frame_count, 2);
    a.reset_accumulation();
    assert_eq!(a.begin_frame(true), FrameStart::Render { frame: 1, clear_accum: true, clear_history: false });
}

#[test]
fn converged_state_stays_put() {
    let mut a = ready(8, 8);
    a.max_samples = 3;
    for expected in 1..=3 {
        assert!(matches!(a.begin_frame(true), FrameStart::Render { frame, .. } if frame == expected));
    }
    let before = a;
    assert_eq!(a.begin_frame(true), FrameStart::Converged);
    assert_eq!(a.begin_wavefront_frame(true), FrameStart::Converged);
    assert_eq!(a, before);
    assert_eq!(a.frame_count, 3);
}

#[test]
fn wavefront_first_frame_consumes_dirty_history() {
    let mut a = ready(8, 8);
    a.mark_history_dirty();
    assert_eq!(
        a.begin_wavefront_frame(true),
        FrameStart::Render { frame: 1, clear_accum: true, clear_history: true }
    );
    assert!(!a.history_dirty);
    a.mark_history_dirty();
    assert_eq!(
        a.begin_wavefront_frame(true),
        FrameStart::Render { frame: 2, clear_accum: false, clear_history: false }
    );
    assert!(a.history_dirty);
    assert_eq!(a.begin_wavefront_frame(false), FrameStart::NotReady);
}

#[test]
fn resize_restarts_only_on_change() {
    let mut a = ready(8, 8);
    a.begin_frame(true);
    assert!(!a.resize(8, 8));
    assert_eq!(a.frame_count, 1);
    assert!(a.resize(16, 8));
    assert_eq!((a.width, a.height, a.frame_count), (16, 8, 0));
}

#[test]
fn toggling_wavefront_restarts_and_dirties_history() {
    let mut a = ready(8, 8);
    a.begin_frame(true);
    assert!(a.set_wavefront_enabled(false, true));
    assert!(a.wavefront_enabled && a.history_dirty);
    assert_eq!(a.frame_count, 0);
    a.begin_frame(true);
    assert!(!a.set_wavefront_enabled(true, true));
    assert_eq!(a.frame_count, 1);
    assert!(!a.set_wavefront_enabled(true, false));
    assert!(!a.wavefront_enabled);
    assert_eq!(a.frame_count, 0);
    // With the pipeline already built, asking for it again does not switch it back on.
    assert!(!a.set_wavefront_enabled(true, true));
    assert!(!a.wavefront_enabled);
}

#[test]
fn adaptive_bounds_are_normalised() {
    let mut b = AdaptiveBudget::default();
    assert_eq!((b.min_spp, b.max_spp, b.update_interval, b.enabled), (64, 1024, 4, false));
    assert_eq!(b.sample_map_fill(), u32::MAX);
    b.set_adaptive_config(0, 0, 0);
    assert_eq!((b.min_spp, b.max_spp, b.update_interval), (1, 1, 1));
    b.set_adaptive_config(32, 8, 2);
    assert_eq!((b.min_spp, b.max_spp, b.update_interval), (32, 32, 2));
    b.enabled = true;
    assert_eq!(b.sample_map_fill(), 32);
    b.max_spp = 0;
    assert_eq!(b.sample_map_fill(), 1);
}

#[test]
fn spectral_samples_never_zero() {
    let mut s = SpectralOptions::default();
    assert_eq!((s.mode, s.samples, s.dispersion), (0, 1, 0));
    s.set_spectral_options(2, 0, 1);
    assert_eq!((s.mode, s.samples, s.dispersion), (2, 1, 1));
    s.set_spectral_options(1, 8, 0);
    assert_eq!(s.samples, 8);
}
