use squarebob::scene_cache::{targets_action, InstanceCache, InstanceUpload, TargetsAction, MIN_INSTANCE_CAPACITY};

#[test]
fn stored_instances_hit_only_for_same_inputs() {
    let mut c = InstanceCache::new();
    assert!(!c.is_valid(false, 7, (100, 50)));
    c.store(false, 7, (100, 50));
    assert!(c.is_valid(false, 7, (100, 50)));
    assert!(!c.is_valid(true, 7, (100, 50)));
    assert!(!c.is_valid(false, 8, (100, 50)));
    assert!(!c.is_valid(false, 7, (100, 51)));
    c.store(true, 9, (1, 1));
    assert!(c.is_valid(false, 7, (100, 50)));
    assert!(!c.is_valid(false, 9, (1, 1)));
    c.invalidate();
    assert!(!c.is_valid(false, 7, (100, 50)));
}

#[test]
fn upload_grows_buffer_by_a_quarter() {
    let mut c = InstanceCache::new();
    assert_eq!(c.plan_upload(true, 10), InstanceUpload { upload: true, realloc: Some(MIN_INSTANCE_CAPACITY) });
    assert_eq!(c.plan_upload(true, 10), InstanceUpload { upload: false, realloc: None });
    assert_eq!(c.plan_upload(false, 1024), InstanceUpload { upload: true, realloc: None });
    assert_eq!(c.plan_upload(false, 2000), InstanceUpload { upload: true, realloc: Some(2500) });
    assert_eq!(c.buffer_capacity, Some(2500));
    c.reset();
    assert_eq!(c.buffer_capacity, None);
    assert_eq!(c.plan_upload(true, 0), InstanceUpload { upload: true, realloc: Some(1024) });
}

#[test]
fn rebuild_counter_wraps() {
    let mut c = InstanceCache::new();
    c.note_rebuild();
    assert_eq!(c.rebuild_count, 1);
    c.rebuild_count = u64::MAX;
    c.note_rebuild();
    assert_eq!(c.rebuild_count, 0);
}

#[test]
fn targets_follow_frame_size() {
    assert_eq!(targets_action(None, true, 10, 10), TargetsAction::Recreate);
    assert_eq!(targets_action(Some((10, 10)), true, 10, 11), TargetsAction::Recreate);
    assert_eq!(targets_action(Some((10, 10)), false, 10, 10), TargetsAction::RebindOnly);
    assert_eq!(targets_action(Some((10, 10)), true, 10, 10), TargetsAction::Keep);
}
