use squarebob::features::{adaptive_change, pathguide_change, restir_change, AdaptiveChange, FeatureChange};
use squarebob::pathguide::{svo_buffer_size, svo_depth, SVO_BUFFER_CAP, SVO_NODE_SIZE};

#[test]
fn restir_pipeline_created_once() {
    assert_eq!(
        restir_change(false, false, false, true, false),
        FeatureChange { create_pipeline: true, rebuild_bindings: true }
    );
    assert_eq!(
        restir_change(true, false, true, true, false),
        FeatureChange { create_pipeline: false, rebuild_bindings: false }
    );
    assert_eq!(
        restir_change(true, false, true, true, true),
        FeatureChange { create_pipeline: false, rebuild_bindings: true }
    );
    assert_eq!(
        restir_change(false, false, false, false, false),
        FeatureChange { create_pipeline: false, rebuild_bindings: false }
    );
}

#[test]
fn pathguide_rebuilds_on_resolution_change() {
    assert_eq!(
        pathguide_change(true, 64, 64, true, true),
        FeatureChange { create_pipeline: false, rebuild_bindings: false }
    );
    assert_eq!(
        pathguide_change(true, 64, 32, true, true),
        FeatureChange { create_pipeline: false, rebuild_bindings: true }
    );
    assert_eq!(
        pathguide_change(false, 64, 64, false, true),
        FeatureChange { create_pipeline: true, rebuild_bindings: true }
    );
}

#[test]
fn adaptive_switching() {
    assert_eq!(
        adaptive_change(false, true),
        AdaptiveChange { create_pipeline: true, set_enabled: Some(true), rebuild_adaptive: true, rebuild_wavefront: true }
    );
    assert_eq!(
        adaptive_change(true, false),
        AdaptiveChange { create_pipeline: false, set_enabled: Some(false), rebuild_adaptive: false, rebuild_wavefront: true }
    );
    assert_eq!(
        adaptive_change(true, true),
        AdaptiveChange { create_pipeline: false, set_enabled: None, rebuild_adaptive: false, rebuild_wavefront: false }
    );
}

#[test]
fn svo_depth_is_floor_log2() {
    assert_eq!(svo_depth(0), 0);
    assert_eq!(svo_depth(1), 0);
    assert_eq!(svo_depth(64), 6);
    assert_eq!(svo_depth(100), 6);
    assert_eq!(svo_depth(u32::MAX), 31);
}

#[test]
fn svo_buffer_holds_full_octree_up_to_cap() {
    assert_eq!(SVO_NODE_SIZE, 48);
    assert_eq!(svo_buffer_size(1), 0);
    assert_eq!(svo_buffer_size(2), 48);
    // 64^3 grid: depth 6, 1 + 8 + ... + 8^5 = 37449 nodes.
    assert_eq!(svo_buffer_size(64), 37449 * 48);
    assert_eq!(svo_buffer_size(256), 2396745 * 48);
    assert_eq!(svo_buffer_size(512), SVO_BUFFER_CAP);
    assert_eq!(svo_buffer_size(0x1F_FFFF), SVO_BUFFER_CAP);
}
