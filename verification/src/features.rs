//! What switching an optional path-tracing feature on or off requires:
//! which pipelines must be created and which bindings rebuilt.
use vstd::prelude::*;

verus! {

/// Work a feature switch requires.
#[derive(Debug, Clone, Copy, PartialEq, Eq, Structural)]
pub struct FeatureChange {
    /// Create the feature's pipeline now.
    pub create_pipeline: bool,
    /// Rebuild the feature's bind groups.
    pub rebuild_bindings: bool,
}

/// Switching ReSTIR DI/GI from `(prev_di, prev_gi)` to `(di, gi)`: the
/// pipeline is created the first time either is wanted, and bindings are
/// rebuilt when the selection changed or the pipeline is new.
pub fn restir_change(prev_di: bool, prev_gi: bool, has_pipeline: bool, di: bool, gi: bool) -> (r:
    FeatureChange)
    ensures
        r.create_pipeline == ((di || gi) && !has_pipeline),
        r.rebuild_bindings == (prev_di != di || prev_gi != gi || r.create_pipeline),
{
    let create = (di || gi) && !has_pipeline;
    FeatureChange { create_pipeline: create, rebuild_bindings: prev_di != di || prev_gi != gi || create }
}

/// Switching path guiding. Bindings are rebuilt when the switch or the
/// octree resolution differs from what the bindings were last built for,
/// or when the pipeline is new.
pub fn pathguide_change(
    last_enabled: bool,
    last_resolution: u32,
    resolution: u32,
    has_pipeline: bool,
    enabled: bool,
) -> (r: FeatureChange)
    ensures
        r.create_pipeline == (enabled && !has_pipeline),
        r.rebuild_bindings == (last_enabled != enabled || last_resolution != resolution
            || r.create_pipeline),
{
    let create = enabled && !has_pipeline;
    FeatureChange {
        create_pipeline: create,
        rebuild_bindings: last_enabled != enabled || last_resolution != resolution || create,
    }
}

/// Work switching adaptive sampling requires.
#[derive(Debug, Clone, Copy, PartialEq, Eq, Structural)]
pub struct AdaptiveChange {
    /// Create the adaptive pipeline now.
    pub create_pipeline: bool,
    /// New value of the configuration's enabled flag, if it changes.
    pub set_enabled: Option<bool>,
    /// Rebuild the adaptive bind groups.
    pub rebuild_adaptive: bool,
    /// Rebuild the wavefront bind groups (they bind the sample map).
    pub rebuild_wavefront: bool,
}

/// Switching adaptive sampling. Turning it on creates the pipeline if it
/// does not exist yet; turning it off only clears the flag. Turning it on
/// while the pipeline already exists changes nothing.
pub fn adaptive_change(has_pipeline: bool, enabled: bool) -> (r: AdaptiveChange)
    ensures
        enabled && !has_pipeline ==> r == (AdaptiveChange {
            create_pipeline: true,
            set_enabled: Some(true),
            rebuild_adaptive: true,
            rebuild_wavefront: true,
        }),
        !enabled ==> r == (AdaptiveChange {
            create_pipeline: false,
            set_enabled: Some(false),
            rebuild_adaptive: false,
            rebuild_wavefront: true,
        }),
        enabled && has_pipeline ==> r == (AdaptiveChange {
            create_pipeline: false,
            set_enabled: None,
            rebuild_adaptive: false,
            rebuild_wavefront: false,
        }),
{
    if enabled && !has_pipeline {
        AdaptiveChange {
            create_pipeline: true,
            set_enabled: Some(true),
            rebuild_adaptive: true,
            rebuild_wavefront: true,
        }
    } else if !enabled {
        AdaptiveChange {
            create_pipeline: false,
            set_enabled: Some(false),
            rebuild_adaptive: false,
            rebuild_wavefront: true,
        }
    } else {
        AdaptiveChange {
            create_pipeline: false,
            set_enabled: None,
            rebuild_adaptive: false,
            rebuild_wavefront: false,
        }
    }
}

} // verus!
