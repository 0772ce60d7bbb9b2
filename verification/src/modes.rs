//! Display-mode catalogues: the enums the settings UI cycles through, their
//! labels, their variant lists and the fixed numeric tags the shaders read.
use vstd::prelude::*;

verus! {

/// Available rendering backends.
#[derive(Debug, Clone, Copy, PartialEq, Eq, Structural)]
pub enum RenderBackend {
    Cpu,
    Gpu,
}

impl RenderBackend {
    /// Display label shown in the settings UI.
    pub open spec fn label(self) -> Seq<char> {
        match self {
            RenderBackend::Cpu => "CPU (Rayon)"@,
            RenderBackend::Gpu => "GPU (wgpu)"@,
        }
    }

    pub fn name(&self) -> (r: &'static str)
        ensures
            r@ == (*self).label(),
    {
        match self {
            RenderBackend::Cpu => "CPU (Rayon)",
            RenderBackend::Gpu => "GPU (wgpu)",
        }
    }

    /// Every variant, in declaration order.
    pub open spec fn variants() -> Seq<Self> {
        seq![RenderBackend::Cpu, RenderBackend::Gpu]
    }

    pub fn all() -> (r: &'static [RenderBackend])
        ensures
            r@ == Self::variants(),
    {
        &[RenderBackend::Cpu, RenderBackend::Gpu]
    }

    /// `all()` lists every variant exactly once.
    pub proof fn lemma_all_lists_each_once(m: Self)
        ensures
            Self::variants().contains(m),
            forall|i: int, j: int|
                0 <= i < j < Self::variants().len() ==> Self::variants()[i] != Self::variants()[j],
    {
        match m {
            RenderBackend::Cpu => assert(Self::variants()[0] == m),
            RenderBackend::Gpu => assert(Self::variants()[1] == m),
        }
    }

}

impl Default for RenderBackend {
    fn default() -> (r: Self)
        ensures
            r == RenderBackend::Cpu,
    {
        RenderBackend::Cpu
    }
}

/// Render mode: 2D treemap or 3D cubes.
#[derive(Debug, Clone, Copy, PartialEq, Eq, Structural)]
pub enum RenderMode {
    Mode2D,
    Mode3D,
}

impl RenderMode {
    /// Display label shown in the settings UI.
    pub open spec fn label(self) -> Seq<char> {
        match self {
            RenderMode::Mode2D => "2D"@,
            RenderMode::Mode3D => "3D"@,
        }
    }

    pub fn name(&self) -> (r: &'static str)
        ensures
            r@ == (*self).label(),
    {
        match self {
            RenderMode::Mode2D => "2D",
            RenderMode::Mode3D => "3D",
        }
    }

    /// Every variant, in declaration order.
    pub open spec fn variants() -> Seq<Self> {
        seq![RenderMode::Mode2D, RenderMode::Mode3D]
    }

    pub fn all() -> (r: &'static [RenderMode])
        ensures
            r@ == Self::variants(),
    {
        &[RenderMode::Mode2D, RenderMode::Mode3D]
    }

    /// `all()` lists every variant exactly once.
    pub proof fn lemma_all_lists_each_once(m: Self)
        ensures
            Self::variants().contains(m),
            forall|i: int, j: int|
                0 <= i < j < Self::variants().len() ==> Self::variants()[i] != Self::variants()[j],
    {
        match m {
            RenderMode::Mode2D => assert(Self::variants()[0] == m),
            RenderMode::Mode3D => assert(Self::variants()[1] == m),
        }
    }

}

impl Default for RenderMode {
    fn default() -> (r: Self)
        ensures
            r == RenderMode::Mode2D,
    {
        RenderMode::Mode2D
    }
}

/// What determines cube height in 3D mode.
#[derive(Debug, Clone, Copy, PartialEq, Eq, Structural)]
pub enum CubeHeightMode {
    FileSize,
    OwnSize,
    FileCount,
    DirCount,
    Age,
    Depth,
    DepthSquared,
    Constant,
}

impl CubeHeightMode {
    /// Display label shown in the settings UI.
    pub open spec fn label(self) -> Seq<char> {
        match self {
            CubeHeightMode::FileSize => "File Size"@,
            CubeHeightMode::OwnSize => "Own Size"@,
            CubeHeightMode::FileCount => "File Count"@,
            CubeHeightMode::DirCount => "Dir Count"@,
            CubeHeightMode::Age => "Age"@,
            CubeHeightMode::Depth => "Depth"@,
            CubeHeightMode::DepthSquared => "Depth^2"@,
            CubeHeightMode::Constant => "Constant"@,
        }
    }

    pub fn name(&self) -> (r: &'static str)
        ensures
            r@ == (*self).label(),
    {
        match self {
            CubeHeightMode::FileSize => "File Size",
            CubeHeightMode::OwnSize => "Own Size",
            CubeHeightMode::FileCount => "File Count",
            CubeHeightMode::DirCount => "Dir Count",
            CubeHeightMode::Age => "Age",
            CubeHeightMode::Depth => "Depth",
            CubeHeightMode::DepthSquared => "Depth^2",
            CubeHeightMode::Constant => "Constant",
        }
    }

}

impl Default for CubeHeightMode {
    fn default() -> (r: Self)
        ensures
            r == CubeHeightMode::FileSize,
    {
        CubeHeightMode::FileSize
    }
}

/// Color mode for 3D cubes.
#[derive(Debug, Clone, Copy, PartialEq, Eq, Structural)]
pub enum ColorMode {
    /// Treemap-assigned colors (depth-based).
    Treemap,
    /// Color by file extension category.
    FileType,
    /// Color by modification time (old to new gradient).
    FileAge,
    /// Color by file size (small to large gradient).
    FileSize,
    /// Color by directory depth (rainbow gradient).
    Depth,
}

impl ColorMode {
    /// Display label shown in the settings UI.
    pub open spec fn label(self) -> Seq<char> {
        match self {
            ColorMode::Treemap => "Treemap"@,
            ColorMode::FileType => "File Type"@,
            ColorMode::FileAge => "File Age"@,
            ColorMode::FileSize => "File Size"@,
            ColorMode::Depth => "Depth"@,
        }
    }

    pub fn name(&self) -> (r: &'static str)
        ensures
            r@ == (*self).label(),
    {
        match self {
            ColorMode::Treemap => "Treemap",
            ColorMode::FileType => "File Type",
            ColorMode::FileAge => "File Age",
            ColorMode::FileSize => "File Size",
            ColorMode::Depth => "Depth",
        }
    }

    /// Every variant, in declaration order.
    pub open spec fn variants() -> Seq<Self> {
        seq![ColorMode::Treemap, ColorMode::FileType, ColorMode::FileAge, ColorMode::FileSize, ColorMode::Depth]
    }

    pub fn all() -> (r: &'static [ColorMode])
        ensures
            r@ == Self::variants(),
    {
        &[ColorMode::Treemap, ColorMode::FileType, ColorMode::FileAge, ColorMode::FileSize, ColorMode::Depth]
    }

    /// `all()` lists every variant exactly once.
    pub proof fn lemma_all_lists_each_once(m: Self)
        ensures
            Self::variants().contains(m),
            forall|i: int, j: int|
                0 <= i < j < Self::variants().len() ==> Self::variants()[i] != Self::variants()[j],
    {
        match m {
            ColorMode::Treemap => assert(Self::variants()[0] == m),
            ColorMode::FileType => assert(Self::variants()[1] == m),
            ColorMode::FileAge => assert(Self::variants()[2] == m),
            ColorMode::FileSize => assert(Self::variants()[3] == m),
            ColorMode::Depth => assert(Self::variants()[4] == m),
        }
    }

}

impl Default for ColorMode {
    fn default() -> (r: Self)
        ensures
            r == ColorMode::Treemap,
    {
        ColorMode::Treemap
    }
}

/// Folder tint color source for files.
#[derive(Debug, Clone, Copy, PartialEq, Eq, Structural)]
pub enum FolderColorMode {
    Depth,
    NameHash,
    PathHash,
}

impl FolderColorMode {
    /// Display label shown in the settings UI.
    pub open spec fn label(self) -> Seq<char> {
        match self {
            FolderColorMode::Depth => "Depth"@,
            FolderColorMode::NameHash => "Name"@,
            FolderColorMode::PathHash => "Path"@,
        }
    }

    pub fn name(&self) -> (r: &'static str)
        ensures
            r@ == (*self).label(),
    {
        match self {
            FolderColorMode::Depth => "Depth",
            FolderColorMode::NameHash => "Name",
            FolderColorMode::PathHash => "Path",
        }
    }

    /// Every variant, in declaration order.
    pub open spec fn variants() -> Seq<Self> {
        seq![FolderColorMode::Depth, FolderColorMode::NameHash, FolderColorMode::PathHash]
    }

    pub fn all() -> (r: &'static [FolderColorMode])
        ensures
            r@ == Self::variants(),
    {
        &[FolderColorMode::Depth, FolderColorMode::NameHash, FolderColorMode::PathHash]
    }

    /// `all()` lists every variant exactly once.
    pub proof fn lemma_all_lists_each_once(m: Self)
        ensures
            Self::variants().contains(m),
            forall|i: int, j: int|
                0 <= i < j < Self::variants().len() ==> Self::variants()[i] != Self::variants()[j],
    {
        match m {
            FolderColorMode::Depth => assert(Self::variants()[0] == m),
            FolderColorMode::NameHash => assert(Self::variants()[1] == m),
            FolderColorMode::PathHash => assert(Self::variants()[2] == m),
        }
    }

}

impl Default for FolderColorMode {
    fn default() -> (r: Self)
        ensures
            r == FolderColorMode::Depth,
    {
        FolderColorMode::Depth
    }
}

/// Adaptive sampling preset (UI helper).
#[derive(Debug, Clone, Copy, PartialEq, Eq, Structural)]
pub enum AdaptivePreset {
    Custom,
    Conservative,
    Balanced,
    Aggressive,
}

impl AdaptivePreset {
    /// Display label shown in the settings UI.
    pub open spec fn label(self) -> Seq<char> {
        match self {
            AdaptivePreset::Custom => "Custom"@,
            AdaptivePreset::Conservative => "Low"@,
            AdaptivePreset::Balanced => "Medium"@,
            AdaptivePreset::Aggressive => "High"@,
        }
    }

    pub fn name(&self) -> (r: &'static str)
        ensures
            r@ == (*self).label(),
    {
        match self {
            AdaptivePreset::Custom => "Custom",
            AdaptivePreset::Conservative => "Low",
            AdaptivePreset::Balanced => "Medium",
            AdaptivePreset::Aggressive => "High",
        }
    }

    /// Every variant, in declaration order.
    pub open spec fn variants() -> Seq<Self> {
        seq![AdaptivePreset::Custom, AdaptivePreset::Conservative, AdaptivePreset::Balanced, AdaptivePreset::Aggressive]
    }

    pub fn all() -> (r: &'static [AdaptivePreset])
        ensures
            r@ == Self::variants(),
    {
        &[AdaptivePreset::Custom, AdaptivePreset::Conservative, AdaptivePreset::Balanced, AdaptivePreset::Aggressive]
    }

    /// `all()` lists every variant exactly once.
    pub proof fn lemma_all_lists_each_once(m: Self)
        ensures
            Self::variants().contains(m),
            forall|i: int, j: int|
                0 <= i < j < Self::variants().len() ==> Self::variants()[i] != Self::variants()[j],
    {
        match m {
            AdaptivePreset::Custom => assert(Self::variants()[0] == m),
            AdaptivePreset::Conservative => assert(Self::variants()[1] == m),
            AdaptivePreset::Balanced => assert(Self::variants()[2] == m),
            AdaptivePreset::Aggressive => assert(Self::variants()[3] == m),
        }
    }

}

impl Default for AdaptivePreset {
    fn default() -> (r: Self)
        ensures
            r == AdaptivePreset::Custom,
    {
        AdaptivePreset::Custom
    }
}

/// Path tracing pixel sampler.
#[derive(Debug, Clone, Copy, PartialEq, Eq, Structural)]
pub enum PtSamplerMode {
    /// Per-sample PCG random numbers.
    Pcg,
    /// R2 low-discrepancy pixel jitter with per-pixel scrambling.
    R2,
}

impl PtSamplerMode {
    /// Display label shown in the settings UI.
    pub open spec fn label(self) -> Seq<char> {
        match self {
            PtSamplerMode::Pcg => "PCG"@,
            PtSamplerMode::R2 => "R2"@,
        }
    }

    pub fn name(&self) -> (r: &'static str)
        ensures
            r@ == (*self).label(),
    {
        match self {
            PtSamplerMode::Pcg => "PCG",
            PtSamplerMode::R2 => "R2",
        }
    }

}

impl Default for PtSamplerMode {
    fn default() -> (r: Self)
        ensures
            r == PtSamplerMode::Pcg,
    {
        PtSamplerMode::Pcg
    }
}

/// Spectral rendering mode (path tracing only).
#[derive(Debug, Clone, Copy, PartialEq, Eq, Structural)]
pub enum SpectralMode {
    Off,
    Hero,
    Multi,
}

impl SpectralMode {
    /// Display label shown in the settings UI.
    pub open spec fn label(self) -> Seq<char> {
        match self {
            SpectralMode::Off => "Off"@,
            SpectralMode::Hero => "Hero"@,
            SpectralMode::Multi => "Multi"@,
        }
    }

    pub fn name(&self) -> (r: &'static str)
        ensures
            r@ == (*self).label(),
    {
        match self {
            SpectralMode::Off => "Off",
            SpectralMode::Hero => "Hero",
            SpectralMode::Multi => "Multi",
        }
    }

    /// Every variant, in declaration order.
    pub open spec fn variants() -> Seq<Self> {
        seq![SpectralMode::Off, SpectralMode::Hero, SpectralMode::Multi]
    }

    pub fn all() -> (r: &'static [SpectralMode])
        ensures
            r@ == Self::variants(),
    {
        &[SpectralMode::Off, SpectralMode::Hero, SpectralMode::Multi]
    }

    /// `all()` lists every variant exactly once.
    pub proof fn lemma_all_lists_each_once(m: Self)
        ensures
            Self::variants().contains(m),
            forall|i: int, j: int|
                0 <= i < j < Self::variants().len() ==> Self::variants()[i] != Self::variants()[j],
    {
        match m {
            SpectralMode::Off => assert(Self::variants()[0] == m),
            SpectralMode::Hero => assert(Self::variants()[1] == m),
            SpectralMode::Multi => assert(Self::variants()[2] == m),
        }
    }

}

impl Default for SpectralMode {
    fn default() -> (r: Self)
        ensures
            r == SpectralMode::Off,
    {
        SpectralMode::Off
    }
}

/// Hash-based transform effect for cubes. `Off` leaves cubes in place.
#[derive(Debug, Clone, Copy, PartialEq, Eq, Structural)]
pub enum HashTransformEffect {
    Off,
    Wave,
    RandomHeight,
    RandomOffset,
    Explode,
    Noise,
    Pulse,
    Spiral,
    Ocean,
    Rotate3D,
    Twist,
    Breathe,
    Swarm,
    Earthquake,
    Ripple,
    Vortex,
    Glitch,
    Echo,
}

impl HashTransformEffect {
    /// Display label shown in the settings UI.
    pub open spec fn label(self) -> Seq<char> {
        match self {
            HashTransformEffect::Off => "None"@,
            HashTransformEffect::Wave => "Wave"@,
            HashTransformEffect::RandomHeight => "Random Height"@,
            HashTransformEffect::RandomOffset => "Random Offset"@,
            HashTransformEffect::Explode => "Explode"@,
            HashTransformEffect::Noise => "Noise"@,
            HashTransformEffect::Pulse => "Pulse"@,
            HashTransformEffect::Spiral => "Spiral"@,
            HashTransformEffect::Ocean => "Ocean"@,
            HashTransformEffect::Rotate3D => "Rotate 3D"@,
            HashTransformEffect::Twist => "Twist"@,
            HashTransformEffect::Breathe => "Breathe"@,
            HashTransformEffect::Swarm => "Swarm"@,
            HashTransformEffect::Earthquake => "Earthquake"@,
            HashTransformEffect::Ripple => "Ripple"@,
            HashTransformEffect::Vortex => "Vortex"@,
            HashTransformEffect::Glitch => "Glitch"@,
            HashTransformEffect::Echo => "Echo"@,
        }
    }

    pub fn name(&self) -> (r: &'static str)
        ensures
            r@ == (*self).label(),
    {
        match self {
            HashTransformEffect::Off => "None",
            HashTransformEffect::Wave => "Wave",
            HashTransformEffect::RandomHeight => "Random Height",
            HashTransformEffect::RandomOffset => "Random Offset",
            HashTransformEffect::Explode => "Explode",
            HashTransformEffect::Noise => "Noise",
            HashTransformEffect::Pulse => "Pulse",
            HashTransformEffect::Spiral => "Spiral",
            HashTransformEffect::Ocean => "Ocean",
            HashTransformEffect::Rotate3D => "Rotate 3D",
            HashTransformEffect::Twist => "Twist",
            HashTransformEffect::Breathe => "Breathe",
            HashTransformEffect::Swarm => "Swarm",
            HashTransformEffect::Earthquake => "Earthquake",
            HashTransformEffect::Ripple => "Ripple",
            HashTransformEffect::Vortex => "Vortex",
            HashTransformEffect::Glitch => "Glitch",
            HashTransformEffect::Echo => "Echo",
        }
    }

    /// Every variant, in declaration order.
    pub open spec fn variants() -> Seq<Self> {
        seq![HashTransformEffect::Off, HashTransformEffect::Wave, HashTransformEffect::RandomHeight, HashTransformEffect::RandomOffset, HashTransformEffect::Explode, HashTransformEffect::Noise, HashTransformEffect::Pulse, HashTransformEffect::Spiral, HashTransformEffect::Ocean, HashTransformEffect::Rotate3D, HashTransformEffect::Twist, HashTransformEffect::Breathe, HashTransformEffect::Swarm, HashTransformEffect::Earthquake, HashTransformEffect::Ripple, HashTransformEffect::Vortex, HashTransformEffect::Glitch, HashTransformEffect::Echo]
    }

    pub fn all() -> (r: &'static [HashTransformEffect])
        ensures
            r@ == Self::variants(),
    {
        &[HashTransformEffect::Off, HashTransformEffect::Wave, HashTransformEffect::RandomHeight, HashTransformEffect::RandomOffset, HashTransformEffect::Explode, HashTransformEffect::Noise, HashTransformEffect::Pulse, HashTransformEffect::Spiral, HashTransformEffect::Ocean, HashTransformEffect::Rotate3D, HashTransformEffect::Twist, HashTransformEffect::Breathe, HashTransformEffect::Swarm, HashTransformEffect::Earthquake, HashTransformEffect::Ripple, HashTransformEffect::Vortex, HashTransformEffect::Glitch, HashTransformEffect::Echo]
    }

    /// `all()` lists every variant exactly once.
    pub proof fn lemma_all_lists_each_once(m: Self)
        ensures
            Self::variants().contains(m),
            forall|i: int, j: int|
                0 <= i < j < Self::variants().len() ==> Self::variants()[i] != Self::variants()[j],
    {
        match m {
            HashTransformEffect::Off => assert(Self::variants()[0] == m),
            HashTransformEffect::Wave => assert(Self::variants()[1] == m),
            HashTransformEffect::RandomHeight => assert(Self::variants()[2] == m),
            HashTransformEffect::RandomOffset => assert(Self::variants()[3] == m),
            HashTransformEffect::Explode => assert(Self::variants()[4] == m),
            HashTransformEffect::Noise => assert(Self::variants()[5] == m),
            HashTransformEffect::Pulse => assert(Self::variants()[6] == m),
            HashTransformEffect::Spiral => assert(Self::variants()[7] == m),
            HashTransformEffect::Ocean => assert(Self::variants()[8] == m),
            HashTransformEffect::Rotate3D => assert(Self::variants()[9] == m),
            HashTransformEffect::Twist => assert(Self::variants()[10] == m),
            HashTransformEffect::Breathe => assert(Self::variants()[11] == m),
            HashTransformEffect::Swarm => assert(Self::variants()[12] == m),
            HashTransformEffect::Earthquake => assert(Self::variants()[13] == m),
            HashTransformEffect::Ripple => assert(Self::variants()[14] == m),
            HashTransformEffect::Vortex => assert(Self::variants()[15] == m),
            HashTransformEffect::Glitch => assert(Self::variants()[16] == m),
            HashTransformEffect::Echo => assert(Self::variants()[17] == m),
        }
    }

}

impl Default for HashTransformEffect {
    fn default() -> (r: Self)
        ensures
            r == HashTransformEffect::Off,
    {
        HashTransformEffect::Off
    }
}

/// Hover highlight mode; `Off` draws no highlight.
#[derive(Debug, Clone, Copy, PartialEq, Eq, Structural)]
pub enum HoverMode {
    Off,
    Outline,
    Tint,
    Both,
}

impl HoverMode {
    /// Display label shown in the settings UI.
    pub open spec fn label(self) -> Seq<char> {
        match self {
            HoverMode::Off => "None"@,
            HoverMode::Outline => "Outline"@,
            HoverMode::Tint => "Tint"@,
            HoverMode::Both => "Both"@,
        }
    }

    pub fn name(&self) -> (r: &'static str)
        ensures
            r@ == (*self).label(),
    {
        match self {
            HoverMode::Off => "None",
            HoverMode::Outline => "Outline",
            HoverMode::Tint => "Tint",
            HoverMode::Both => "Both",
        }
    }

    /// Every variant, in declaration order.
    pub open spec fn variants() -> Seq<Self> {
        seq![HoverMode::Off, HoverMode::Outline, HoverMode::Tint, HoverMode::Both]
    }

    pub fn all() -> (r: &'static [HoverMode])
        ensures
            r@ == Self::variants(),
    {
        &[HoverMode::Off, HoverMode::Outline, HoverMode::Tint, HoverMode::Both]
    }

    /// `all()` lists every variant exactly once.
    pub proof fn lemma_all_lists_each_once(m: Self)
        ensures
            Self::variants().contains(m),
            forall|i: int, j: int|
                0 <= i < j < Self::variants().len() ==> Self::variants()[i] != Self::variants()[j],
    {
        match m {
            HoverMode::Off => assert(Self::variants()[0] == m),
            HoverMode::Outline => assert(Self::variants()[1] == m),
            HoverMode::Tint => assert(Self::variants()[2] == m),
            HoverMode::Both => assert(Self::variants()[3] == m),
        }
    }

    /// WGSL mode value: 0 = none, 1 = outline, 2 = tint, 3 = both.
    pub open spec fn wgsl_value(self) -> u32 {
        match self {
            HoverMode::Off => 0,
            HoverMode::Outline => 1,
            HoverMode::Tint => 2,
            HoverMode::Both => 3,
        }
    }

    pub fn to_u32(self) -> (r: u32)
        ensures
            r == (self).wgsl_value(),
    {
        match self {
            HoverMode::Off => 0,
            HoverMode::Outline => 1,
            HoverMode::Tint => 2,
            HoverMode::Both => 3,
        }
    }

}

impl Default for HoverMode {
    fn default() -> (r: Self)
        ensures
            r == HoverMode::Off,
    {
        HoverMode::Off
    }
}

/// Denoiser input set. The default (color + albedo + normal) denoises out of the box.
#[derive(Debug, Clone, Copy, PartialEq, Eq, Structural)]
pub enum OidnModeOption {
    Off,
    Color,
    ColorAlbedo,
    ColorAlbedoNormal,
}

impl OidnModeOption {
}

impl Default for OidnModeOption {
    fn default() -> (r: Self)
        ensures
            r == OidnModeOption::ColorAlbedoNormal,
    {
        OidnModeOption::ColorAlbedoNormal
    }
}

/// Denoiser model-size selector (which weight file size to load).
#[derive(Debug, Clone, Copy, PartialEq, Eq, Structural)]
pub enum OidnQualityOption {
    Large,
    Base,
    Small,
}

impl OidnQualityOption {
}

impl Default for OidnQualityOption {
    fn default() -> (r: Self)
        ensures
            r == OidnQualityOption::Base,
    {
        OidnQualityOption::Base
    }
}

/// Working colour space the display pipeline operates in.
#[derive(Debug, Clone, Copy, PartialEq, Eq, Structural)]
pub enum ColorWorkingSpace {
    LinearSRGB,
    ACEScg,
    ACES2065_1,
}

impl ColorWorkingSpace {
}

impl Default for ColorWorkingSpace {
    fn default() -> (r: Self)
        ensures
            r == ColorWorkingSpace::ACEScg,
    {
        ColorWorkingSpace::ACEScg
    }
}

/// Display-side tonemap selector; `Off` clamps to [0, 1] with no curve.
#[derive(Debug, Clone, Copy, PartialEq, Eq, Structural)]
pub enum TonemapKind {
    Off,
    Linear,
    Reinhard,
    AcesFilmic,
    AcesFull,
}

impl TonemapKind {
    /// Stable numeric tag for the GPU side; fixed by the blit shader ABI.
    pub open spec fn abi_tag(self) -> u32 {
        match self {
            TonemapKind::Off => 0,
            TonemapKind::Linear => 1,
            TonemapKind::Reinhard => 2,
            TonemapKind::AcesFilmic => 3,
            TonemapKind::AcesFull => 4,
        }
    }

    pub fn gpu_tag(self) -> (r: u32)
        ensures
            r == (self).abi_tag(),
    {
        match self {
            TonemapKind::Off => 0,
            TonemapKind::Linear => 1,
            TonemapKind::Reinhard => 2,
            TonemapKind::AcesFilmic => 3,
            TonemapKind::AcesFull => 4,
        }
    }

}

impl Default for TonemapKind {
    fn default() -> (r: Self)
        ensures
            r == TonemapKind::AcesFilmic,
    {
        TonemapKind::AcesFilmic
    }
}

/// Input Device Transform into the ACES working space; `Off` applies none.
#[derive(Debug, Clone, Copy, PartialEq, Eq, Structural)]
pub enum AcesIdt {
    Off,
    SrgbToAp1,
    Rec709ToAp1,
    Ap1Passthrough,
}

impl AcesIdt {
}

impl Default for AcesIdt {
    fn default() -> (r: Self)
        ensures
            r == AcesIdt::SrgbToAp1,
    {
        AcesIdt::SrgbToAp1
    }
}

/// Look Modification Transform between IDT and RRT; `Off` is the neutral look.
#[derive(Debug, Clone, Copy, PartialEq, Eq, Structural)]
pub enum AcesLmt {
    Off,
    Neutral,
    Punchy,
    Warm,
    Cool,
    Bleach,
    Vintage,
}

impl AcesLmt {
}

impl Default for AcesLmt {
    fn default() -> (r: Self)
        ensures
            r == AcesLmt::Off,
    {
        AcesLmt::Off
    }
}

/// Reference Rendering Transform variant.
#[derive(Debug, Clone, Copy, PartialEq, Eq, Structural)]
pub enum AcesRrt {
    Standard,
    A1_1,
    Off,
}

impl AcesRrt {
    /// Tag packed into the blit parameters; order is pinned by the shader.
    pub open spec fn abi_tag(self) -> u32 {
        match self {
            AcesRrt::Standard => 0,
            AcesRrt::A1_1 => 1,
            AcesRrt::Off => 2,
        }
    }

    pub fn gpu_tag(self) -> (r: u32)
        ensures
            r == (self).abi_tag(),
    {
        match self {
            AcesRrt::Standard => 0,
            AcesRrt::A1_1 => 1,
            AcesRrt::Off => 2,
        }
    }

}

impl Default for AcesRrt {
    fn default() -> (r: Self)
        ensures
            r == AcesRrt::Standard,
    {
        AcesRrt::Standard
    }
}

/// Output Device Transform: the display-referred target.
#[derive(Debug, Clone, Copy, PartialEq, Eq, Structural)]
pub enum AcesOdt {
    Srgb100nits,
    Rec709,
    Rec2020_1000nits,
    P3D65,
    DciP3,
    SrgbHdrSim,
}

impl AcesOdt {
    /// Stable numeric tag the blit shader uses to pick the OETF.
    pub open spec fn abi_tag(self) -> u32 {
        match self {
            AcesOdt::Srgb100nits => 0,
            AcesOdt::Rec709 => 1,
            AcesOdt::Rec2020_1000nits => 2,
            AcesOdt::P3D65 => 3,
            AcesOdt::DciP3 => 4,
            AcesOdt::SrgbHdrSim => 5,
        }
    }

    pub fn gpu_tag(self) -> (r: u32)
        ensures
            r == (self).abi_tag(),
    {
        match self {
            AcesOdt::Srgb100nits => 0,
            AcesOdt::Rec709 => 1,
            AcesOdt::Rec2020_1000nits => 2,
            AcesOdt::P3D65 => 3,
            AcesOdt::DciP3 => 4,
            AcesOdt::SrgbHdrSim => 5,
        }
    }

}

impl Default for AcesOdt {
    fn default() -> (r: Self)
        ensures
            r == AcesOdt::Srgb100nits,
    {
        AcesOdt::Srgb100nits
    }
}

/// Which camera model the renderer reads from.
#[derive(Debug, Clone, Copy, PartialEq, Eq, Structural)]
pub enum CameraType {
    Physical,
    Manual,
}

impl CameraType {
}

impl Default for CameraType {
    fn default() -> (r: Self)
        ensures
            r == CameraType::Physical,
    {
        CameraType::Physical
    }
}

/// Path tracing backend.
#[derive(Debug, Clone, Copy, PartialEq, Eq, Structural)]
pub enum PtBackendKind {
    Megakernel,
    Wavefront,
    Spectral,
}

impl PtBackendKind {
}

/// The options that decide which path tracing backend runs.
#[derive(Debug, Clone, Copy, PartialEq, Eq, Structural)]
pub struct PtBackendOptions {
    pub pt_spectral_mode: SpectralMode,
    pub pt_wavefront: bool,
}

/// Spectral rendering wins over wavefront, which wins over the megakernel.
pub open spec fn backend_for(opts: PtBackendOptions) -> PtBackendKind {
    if opts.pt_spectral_mode != SpectralMode::Off {
        PtBackendKind::Spectral
    } else if opts.pt_wavefront {
        PtBackendKind::Wavefront
    } else {
        PtBackendKind::Megakernel
    }
}

pub fn backend_from_opts(opts: &PtBackendOptions) -> (r: PtBackendKind)
    ensures
        r == backend_for(*opts),
{
    if opts.pt_spectral_mode != SpectralMode::Off {
        PtBackendKind::Spectral
    } else if opts.pt_wavefront {
        PtBackendKind::Wavefront
    } else {
        PtBackendKind::Megakernel
    }
}


/// The GPU-side numbers are the ones the shaders expect, one per variant:
/// hover 0 = none, 1 = outline, 2 = tint, 3 = both; tonemap off, linear,
/// Reinhard, ACES filmic, ACES full = 0..4; RRT standard, 1.1, off = 0..2;
/// ODT sRGB 100 nits, Rec.709, Rec.2020 1000 nits, P3-D65, DCI-P3, sRGB HDR
/// simulation = 0..5.
pub proof fn lemma_gpu_tags()
    ensures
        HoverMode::Off.wgsl_value() == 0,
        HoverMode::Outline.wgsl_value() == 1,
        HoverMode::Tint.wgsl_value() == 2,
        HoverMode::Both.wgsl_value() == 3,
        TonemapKind::Off.abi_tag() == 0,
        TonemapKind::Linear.abi_tag() == 1,
        TonemapKind::Reinhard.abi_tag() == 2,
        TonemapKind::AcesFilmic.abi_tag() == 3,
        TonemapKind::AcesFull.abi_tag() == 4,
        AcesRrt::Standard.abi_tag() == 0,
        AcesRrt::A1_1.abi_tag() == 1,
        AcesRrt::Off.abi_tag() == 2,
        AcesOdt::Srgb100nits.abi_tag() == 0,
        AcesOdt::Rec709.abi_tag() == 1,
        AcesOdt::Rec2020_1000nits.abi_tag() == 2,
        AcesOdt::P3D65.abi_tag() == 3,
        AcesOdt::DciP3.abi_tag() == 4,
        AcesOdt::SrgbHdrSim.abi_tag() == 5,
{
}

/// Spectral mode selects the spectral back end whatever the wavefront
/// switch; otherwise the wavefront switch picks wavefront over the
/// megakernel.
pub proof fn lemma_backend_choice(opts: PtBackendOptions)
    ensures
        opts.pt_spectral_mode != SpectralMode::Off ==> backend_for(opts) == PtBackendKind::Spectral,
        opts.pt_spectral_mode == SpectralMode::Off && opts.pt_wavefront ==> backend_for(opts)
            == PtBackendKind::Wavefront,
        opts.pt_spectral_mode == SpectralMode::Off && !opts.pt_wavefront ==> backend_for(opts)
            == PtBackendKind::Megakernel,
{
}

} // verus!
