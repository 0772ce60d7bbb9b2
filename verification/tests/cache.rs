use squarebob::cache::{MaterialCache, MAX_MATERIAL_SLOTS};
use squarebob::materials::MaterializeMode;

#[test]
fn scene_meta_clamps_and_clears() {
    let mut c = MaterialCache::default();
    assert_eq!(c.scene_meta(), (1, 1));
    assert_eq!(c.classify_or_get(5, 4, MaterializeMode::ByPath, false, || 3), 3);
    c.set_scene_meta(0, 0);
    assert_eq!(c.scene_meta(), (1, 1));
    assert_eq!(c.ids_pbr.len(), 1);
    c.set_scene_meta(4, 100);
    assert_eq!(c.scene_meta(), (4, 100));
    assert!(c.ids_pbr.is_empty());
}

#[test]
fn classify_is_cached_per_bucket() {
    let mut c = MaterialCache::new();
    assert_eq!(c.classify_or_get(7, 10, MaterializeMode::ByExtension, true, || 2), 2);
    assert_eq!(c.classify_or_get(7, 10, MaterializeMode::ByExtension, true, || 9), 2);
    assert_eq!(c.classify_or_get(7, 10, MaterializeMode::ByExtension, false, || 9), 9);
    assert_eq!(c.classify_or_get(7, 0, MaterializeMode::ByExtension, false, || 5), 0);
    assert_eq!(c.classify_or_get(8, 10, MaterializeMode::Off, false, || 5), 0);
    assert_eq!(MAX_MATERIAL_SLOTS, 256);
}

#[test]
fn settings_change_drops_caches() {
    let mut c = MaterialCache::new();
    c.classify_or_get(1, 3, MaterializeMode::Random, false, || 1);
    c.ensure(0);
    assert_eq!(c.ids_pbr.len(), 1);
    c.ensure(42);
    assert_eq!(c.settings_hash, 42);
    assert!(c.ids_pbr.is_empty() && c.ids_pt.is_empty());
}
