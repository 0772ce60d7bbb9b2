//! Integer sampling settings of the compute path tracer: the adaptive
//! per-pixel sample budget and the spectral sample count.
use vstd::prelude::*;

verus! {

/// Integer part of the adaptive sampling configuration (the variance
/// threshold, a float, is kept next to it by the caller).
#[derive(Debug, Clone, Copy, PartialEq, Eq, Structural)]
pub struct AdaptiveBudget {
    /// Adaptive sampling is switched on.
    pub enabled: bool,
    /// Minimum samples per pixel.
    pub min_spp: u32,
    /// Maximum samples per pixel.
    pub max_spp: u32,
    /// Frames between variance updates.
    pub update_interval: u32,
}

impl Default for AdaptiveBudget {
    fn default() -> (r: Self)
        ensures
            r == (AdaptiveBudget { enabled: false, min_spp: 64, max_spp: 1024, update_interval: 4 }),
    {
        AdaptiveBudget { enabled: false, min_spp: 64, max_spp: 1024, update_interval: 4 }
    }
}

/// `v`, but never 0.
pub open spec fn or_one(v: u32) -> u32 {
    if v == 0 {
        1
    } else {
        v
    }
}

impl AdaptiveBudget {
    /// Adopt new bounds. Each value is raised to at least 1 and the maximum
    /// to at least the minimum; the enabled flag is kept.
    pub fn set_adaptive_config(&mut self, min_spp: u32, max_spp: u32, update_interval: u32)
        ensures
            final(self).enabled == old(self).enabled,
            final(self).min_spp == or_one(min_spp),
            final(self).max_spp == if or_one(max_spp) < or_one(min_spp) {
                or_one(min_spp)
            } else {
                or_one(max_spp)
            },
            final(self).update_interval == or_one(update_interval),
            1 <= final(self).min_spp <= final(self).max_spp,
            1 <= final(self).update_interval,
    {
        let min_spp = if min_spp == 0 {
            1
        } else {
            min_spp
        };
        let mut max_spp = if max_spp == 0 {
            1
        } else {
            max_spp
        };
        if max_spp < min_spp {
            max_spp = min_spp;
        }
        self.min_spp = min_spp;
        self.max_spp = max_spp;
        self.update_interval = if update_interval == 0 {
            1
        } else {
            update_interval
        };
    }

    /// Value every pixel of the sample map holds: the maximum budget when
    /// adaptive sampling is on, otherwise "unlimited" (`u32::MAX`).
    pub fn sample_map_fill(&self) -> (r: u32)
        ensures
            r == if self.enabled {
                or_one(self.max_spp)
            } else {
                u32::MAX
            },
    {
        if self.enabled {
            if self.max_spp == 0 {
                1
            } else {
                self.max_spp
            }
        } else {
            u32::MAX
        }
    }
}

/// Spectral rendering options forwarded to the wavefront shade pass.
#[derive(Debug, Clone, Copy, PartialEq, Eq, Structural)]
pub struct SpectralOptions {
    /// Spectral mode tag.
    pub mode: u32,
    /// Wavelength samples per path (at least 1).
    pub samples: u32,
    /// Dispersion switch.
    pub dispersion: u32,
}

impl Default for SpectralOptions {
    fn default() -> (r: Self)
        ensures
            r == (SpectralOptions { mode: 0, samples: 1, dispersion: 0 }),
    {
        SpectralOptions { mode: 0, samples: 1, dispersion: 0 }
    }
}

impl SpectralOptions {
    /// Adopt new options; a sample count of 0 is raised to 1.
    pub fn set_spectral_options(&mut self, mode: u32, samples: u32, dispersion: u32)
        ensures
            *final(self) == (SpectralOptions { mode, samples: or_one(samples), dispersion }),
    {
        self.mode = mode;
        self.samples = if samples == 0 {
            1
        } else {
            samples
        };
        self.dispersion = dispersion;
    }
}


/// Raising to at least one keeps every positive value and turns 0 into 1.
pub proof fn lemma_or_one(v: u32)
    ensures
        or_one(v) >= 1,
        v > 0 ==> or_one(v) == v,
        v == 0 ==> or_one(v) == 1,
{
}

} // verus!
