//! Defaults that saved render settings fall back to when a field is missing.
use vstd::prelude::*;

use crate::modes::{OidnModeOption, OidnQualityOption};

verus! {

/// Denoiser input set used when a setting is missing.
pub fn default_oidn_mode() -> (r: OidnModeOption)
    ensures
        r == OidnModeOption::ColorAlbedoNormal,
{
    OidnModeOption::ColorAlbedoNormal
}

/// Denoiser model size used when a setting is missing.
pub fn default_oidn_quality() -> (r: OidnQualityOption)
    ensures
        r == OidnQualityOption::Base,
{
    OidnQualityOption::Base
}

/// The denoiser runs automatically once the target sample count is reached.
pub fn default_oidn_auto() -> (r: bool)
    ensures
        r == true,
{
    true
}

/// Re-run the denoiser every this many accumulated samples.
pub fn default_oidn_interval() -> (r: u32)
    ensures
        r == 128,
{
    128
}

/// Non-finite denoiser inputs are replaced with zero.
pub fn default_oidn_nan_protect() -> (r: bool)
    ensures
        r == true,
{
    true
}

/// The firefly clamp ramps up with the sample count.
pub fn default_oidn_adaptive_clamp() -> (r: bool)
    ensures
        r == true,
{
    true
}

/// Default for flags that start enabled.
pub fn default_true() -> (r: bool)
    ensures
        r == true,
{
    true
}

/// Default for flags that start disabled.
pub fn default_false() -> (r: bool)
    ensures
        r == false,
{
    false
}

/// Seed for random material assignment.
pub fn default_mat_seed() -> (r: u32)
    ensures
        r == 2654435761,
{
    2654435761
}

/// Number of quantisation levels for material ramps.
pub fn default_quant_levels() -> (r: u32)
    ensures
        r == 5,
{
    5
}

/// Number of bands for stratified material distribution.
pub fn default_band_count() -> (r: u32)
    ensures
        r == 8,
{
    8
}

/// Camera inertia starts enabled.
pub fn default_inertia_enabled() -> (r: bool)
    ensures
        r == true,
{
    true
}

/// Maximum ReSTIR history length.
pub fn default_restir_m_max() -> (r: u32)
    ensures
        r == 30,
{
    30
}

/// Path-guiding voxel grid resolution.
pub fn default_svo_resolution() -> (r: u32)
    ensures
        r == 64,
{
    64
}

/// Frames between adaptive-sampling variance updates.
pub fn default_adaptive_interval() -> (r: u32)
    ensures
        r == 4,
{
    4
}

/// Wavelength samples per path in spectral mode.
pub fn default_spectral_samples() -> (r: u32)
    ensures
        r == 2,
{
    2
}

/// Emissive light samples per shading point.
pub fn default_emissive_samples() -> (r: u32)
    ensures
        r == 1,
{
    1
}

} // verus!
