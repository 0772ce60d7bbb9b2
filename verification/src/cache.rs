//! Per-path material classification cache.
//!
//! Caches the library index chosen for each path key so identical paths
//! reuse their classification. The caches are dropped whenever the material
//! settings change or the scene-wide normalisation bounds move.
use std::collections::HashMap;
use vstd::prelude::*;

use crate::materials::MaterializeMode;

verus! {

/// Capacity of the PBR material storage buffer; library indices visible to
/// classification are limited to `[0, MAX_MATERIAL_SLOTS)`.
pub const MAX_MATERIAL_SLOTS: u32 = 256;

/// Per-path material classification cache, one bucket for the rasteriser
/// and one for the path tracer.
pub struct MaterialCache {
    pub settings_hash: u64,
    pub ids_pbr: HashMap<u32, u32>,
    pub ids_pt: HashMap<u32, u32>,
    scene_max_depth: u32,
    scene_max_size: u64,
}

impl MaterialCache {
    /// Hash of the settings the cached classifications were made under.
    pub closed spec fn spec_settings_hash(self) -> u64 {
        self.settings_hash
    }

    /// The rasteriser bucket.
    pub closed spec fn pbr(self) -> Map<u32, u32> {
        self.ids_pbr@
    }

    /// The path-tracer bucket.
    pub closed spec fn pt(self) -> Map<u32, u32> {
        self.ids_pt@
    }

    /// Scene-level normalisation bounds `(max_depth, max_size)`.
    pub closed spec fn spec_scene_meta(self) -> (u32, u64) {
        (self.scene_max_depth, self.scene_max_size)
    }

    pub fn new() -> (r: Self)
        ensures
            r.spec_settings_hash() == 0,
            r.pbr() == Map::<u32, u32>::empty(),
            r.pt() == Map::<u32, u32>::empty(),
            r.spec_scene_meta() == (1u32, 1u64),
    {
        MaterialCache {
            settings_hash: 0,
            ids_pbr: HashMap::new(),
            ids_pt: HashMap::new(),
            scene_max_depth: 1,
            scene_max_size: 1,
        }
    }

    /// Drop cached classifications when the material-settings hash changes.
    /// Call once per frame before any `classify_or_get` calls.
    pub fn ensure(&mut self, settings_hash: u64)
        ensures
            final(self).spec_settings_hash() == settings_hash,
            final(self).spec_scene_meta() == old(self).spec_scene_meta(),
            settings_hash == old(self).spec_settings_hash() ==> final(self).pbr() == old(self).pbr()
                && final(self).pt() == old(self).pt(),
            settings_hash != old(self).spec_settings_hash() ==> final(self).pbr() == Map::<
                u32,
                u32,
            >::empty() && final(self).pt() == Map::<u32, u32>::empty(),
    {
        if settings_hash != self.settings_hash {
            self.ids_pbr.clear();
            self.ids_pt.clear();
            self.settings_hash = settings_hash;
        }
    }

    /// The most recent scene-level bounds `(max_depth, max_size)`; `(1, 1)`
    /// before `set_scene_meta` has been called.
    pub fn scene_meta(&self) -> (r: (u32, u64))
        ensures
            r == self.spec_scene_meta(),
    {
        (self.scene_max_depth, self.scene_max_size)
    }

    /// Update scene-level normalisation bounds (each clamped to at least 1).
    /// Clears both caches when the bounds change so `Depth` / `Size`
    /// classifications stay consistent.
    pub fn set_scene_meta(&mut self, max_depth: u32, max_size: u64)
        ensures
            ({
                let d: u32 = if max_depth >= 1 { max_depth } else { 1 };
                let s: u64 = if max_size >= 1 { max_size } else { 1 };
                &&& final(self).spec_scene_meta() == (d, s)
                &&& final(self).spec_settings_hash() == old(self).spec_settings_hash()
                &&& (d, s) == old(self).spec_scene_meta() ==> final(self).pbr() == old(self).pbr()
                    && final(self).pt() == old(self).pt()
                &&& (d, s) != old(self).spec_scene_meta() ==> final(self).pbr() == Map::<
                    u32,
                    u32,
                >::empty() && final(self).pt() == Map::<u32, u32>::empty()
            }),
    {
        let max_depth = if max_depth >= 1 {
            max_depth
        } else {
            1
        };
        let max_size = if max_size >= 1 {
            max_size
        } else {
            1
        };
        if max_depth != self.scene_max_depth || max_size != self.scene_max_size {
            self.scene_max_depth = max_depth;
            self.scene_max_size = max_size;
            self.ids_pbr.clear();
            self.ids_pt.clear();
        }
    }

    /// Look up the cached library index for the path key `key`, or compute
    /// it with `classify` and remember it. An empty library or a disabled
    /// material mode answers 0 without touching the caches.
    pub fn classify_or_get<F: FnOnce() -> u32>(
        &mut self,
        key: u32,
        library_len: usize,
        materialize_mode: MaterializeMode,
        is_pt: bool,
        classify: F,
    ) -> (r: u32)
        requires
            call_requires(classify, ()),
        ensures
            final(self).spec_settings_hash() == old(self).spec_settings_hash(),
            final(self).spec_scene_meta() == old(self).spec_scene_meta(),
            ({
                let bucket = if is_pt { old(self).pt() } else { old(self).pbr() };
                let after = if is_pt { final(self).pt() } else { final(self).pbr() };
                let other_same = if is_pt { final(self).pbr() == old(self).pbr() } else { final(self).pt() == old(self).pt() };
                if library_len == 0 || materialize_mode == MaterializeMode::Off {
                    r == 0 && final(self).pbr() == old(self).pbr() && final(self).pt() == old(self).pt()
                } else if bucket.contains_key(key) {
                    r == bucket[key] && final(self).pbr() == old(self).pbr() && final(self).pt() == old(self).pt()
                } else {
                    call_ensures(classify, (), r) && after == bucket.insert(key, r) && other_same
                }
            }),
    {
        let cap = MAX_MATERIAL_SLOTS as usize;
        let lib_len = if library_len < cap {
            library_len
        } else {
            cap
        };
        if lib_len == 0 || materialize_mode == MaterializeMode::Off {
            return 0;
        }
        let bucket = if is_pt {
            &mut self.ids_pt
        } else {
            &mut self.ids_pbr
        };
        if let Some(id) = bucket.get(&key) {
            return *id;
        }
        let id = classify();
        bucket.insert(key, id);
        id
    }
}

impl Default for MaterialCache {
    fn default() -> (r: Self)
        ensures
            r.spec_settings_hash() == 0,
            r.pbr() == Map::<u32, u32>::empty(),
            r.pt() == Map::<u32, u32>::empty(),
            r.spec_scene_meta() == (1u32, 1u64),
    {
        MaterialCache::new()
    }
}

} // verus!
