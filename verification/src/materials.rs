//! Material classification catalogues: what scalar a cube is classified on,
//! how the picker is reshaped, the legacy preset enum, and the colour palettes
//! with their stable slot indices.
use vstd::prelude::*;

use crate::modes::{ColorMode, FolderColorMode};

verus! {

/// Number of pre-baked samples per palette stored in the material library.
pub const PALETTE_BINS: u32 = 256;

/// Number of materials reserved for legacy material classes; palette samples
/// start at this offset.
pub const BASE_LIBRARY_SIZE: u32 = 34;

/// What data determines the material; `Off` pins every cube to slot 0.
#[derive(Debug, Clone, Copy, PartialEq, Eq, Structural)]
pub enum MaterialSource {
    Off,
    Extension,
    Path,
    Size,
    Age,
    Depth,
    Random,
}

impl MaterialSource {
    /// Display label shown in the settings UI.
    pub open spec fn label(self) -> Seq<char> {
        match self {
            MaterialSource::Off => "None"@,
            MaterialSource::Extension => "Extension"@,
            MaterialSource::Path => "Path"@,
            MaterialSource::Size => "Size"@,
            MaterialSource::Age => "Age"@,
            MaterialSource::Depth => "Depth"@,
            MaterialSource::Random => "Random"@,
        }
    }

    pub fn name(self) -> (r: &'static str)
        ensures
            r@ == (self).label(),
    {
        match self {
            MaterialSource::Off => "None",
            MaterialSource::Extension => "Extension",
            MaterialSource::Path => "Path",
            MaterialSource::Size => "Size",
            MaterialSource::Age => "Age",
            MaterialSource::Depth => "Depth",
            MaterialSource::Random => "Random",
        }
    }

    /// Every variant, in declaration order.
    pub open spec fn variants() -> Seq<Self> {
        seq![MaterialSource::Off, MaterialSource::Extension, MaterialSource::Path, MaterialSource::Size, MaterialSource::Age, MaterialSource::Depth, MaterialSource::Random]
    }

    pub fn all() -> (r: &'static [MaterialSource])
        ensures
            r@ == Self::variants(),
    {
        &[MaterialSource::Off, MaterialSource::Extension, MaterialSource::Path, MaterialSource::Size, MaterialSource::Age, MaterialSource::Depth, MaterialSource::Random]
    }

    /// `all()` lists every variant exactly once.
    pub proof fn lemma_all_lists_each_once(m: Self)
        ensures
            Self::variants().contains(m),
            forall|i: int, j: int|
                0 <= i < j < Self::variants().len() ==> Self::variants()[i] != Self::variants()[j],
    {
        match m {
            MaterialSource::Off => assert(Self::variants()[0] == m),
            MaterialSource::Extension => assert(Self::variants()[1] == m),
            MaterialSource::Path => assert(Self::variants()[2] == m),
            MaterialSource::Size => assert(Self::variants()[3] == m),
            MaterialSource::Age => assert(Self::variants()[4] == m),
            MaterialSource::Depth => assert(Self::variants()[5] == m),
            MaterialSource::Random => assert(Self::variants()[6] == m),
        }
    }

}

impl Default for MaterialSource {
    fn default() -> (r: Self)
        ensures
            r == MaterialSource::Off,
    {
        MaterialSource::Off
    }
}

/// How the seeded source value is reshaped before the weighted lookup.
#[derive(Debug, Clone, Copy, PartialEq, Eq, Structural, Hash)]
pub enum MaterialDistribution {
    /// Raw seeded source into the weighted lookup.
    Direct,
    /// Partition the source axis into bands; each band walks the full range.
    Stratified,
    /// 3D cellular noise from cube position.
    Spatial,
    /// 3D smooth value noise from cube position.
    Perlin,
    /// Smoothstep curve on the seeded source.
    Gradient,
}

impl MaterialDistribution {
    /// Display label shown in the settings UI.
    pub open spec fn label(self) -> Seq<char> {
        match self {
            MaterialDistribution::Direct => "Direct"@,
            MaterialDistribution::Stratified => "Stratified"@,
            MaterialDistribution::Spatial => "Spatial"@,
            MaterialDistribution::Perlin => "Perlin"@,
            MaterialDistribution::Gradient => "Gradient"@,
        }
    }

    pub fn name(self) -> (r: &'static str)
        ensures
            r@ == (self).label(),
    {
        match self {
            MaterialDistribution::Direct => "Direct",
            MaterialDistribution::Stratified => "Stratified",
            MaterialDistribution::Spatial => "Spatial",
            MaterialDistribution::Perlin => "Perlin",
            MaterialDistribution::Gradient => "Gradient",
        }
    }

    /// Every variant, in declaration order.
    pub open spec fn variants() -> Seq<Self> {
        seq![MaterialDistribution::Direct, MaterialDistribution::Stratified, MaterialDistribution::Spatial, MaterialDistribution::Perlin, MaterialDistribution::Gradient]
    }

    pub fn all() -> (r: &'static [MaterialDistribution])
        ensures
            r@ == Self::variants(),
    {
        &[MaterialDistribution::Direct, MaterialDistribution::Stratified, MaterialDistribution::Spatial, MaterialDistribution::Perlin, MaterialDistribution::Gradient]
    }

    /// `all()` lists every variant exactly once.
    pub proof fn lemma_all_lists_each_once(m: Self)
        ensures
            Self::variants().contains(m),
            forall|i: int, j: int|
                0 <= i < j < Self::variants().len() ==> Self::variants()[i] != Self::variants()[j],
    {
        match m {
            MaterialDistribution::Direct => assert(Self::variants()[0] == m),
            MaterialDistribution::Stratified => assert(Self::variants()[1] == m),
            MaterialDistribution::Spatial => assert(Self::variants()[2] == m),
            MaterialDistribution::Perlin => assert(Self::variants()[3] == m),
            MaterialDistribution::Gradient => assert(Self::variants()[4] == m),
        }
    }

}

impl Default for MaterialDistribution {
    fn default() -> (r: Self)
        ensures
            r == MaterialDistribution::Direct,
    {
        MaterialDistribution::Direct
    }
}

/// Legacy preset shortcut for `MaterialSource`; `Off` disables materials.
#[derive(Debug, Clone, Copy, PartialEq, Eq, Structural)]
pub enum MaterializeMode {
    Off,
    ByExtension,
    ByPath,
    BySize,
    ByAge,
    Random,
}

impl MaterializeMode {
    /// Display label shown in the settings UI.
    pub open spec fn label(self) -> Seq<char> {
        match self {
            MaterializeMode::Off => "None"@,
            MaterializeMode::ByExtension => "By Extension"@,
            MaterializeMode::ByPath => "By Path"@,
            MaterializeMode::BySize => "By Size"@,
            MaterializeMode::ByAge => "By Age"@,
            MaterializeMode::Random => "Random"@,
        }
    }

    pub fn name(self) -> (r: &'static str)
        ensures
            r@ == (self).label(),
    {
        match self {
            MaterializeMode::Off => "None",
            MaterializeMode::ByExtension => "By Extension",
            MaterializeMode::ByPath => "By Path",
            MaterializeMode::BySize => "By Size",
            MaterializeMode::ByAge => "By Age",
            MaterializeMode::Random => "Random",
        }
    }

    /// Every variant, in declaration order.
    pub open spec fn variants() -> Seq<Self> {
        seq![MaterializeMode::Off, MaterializeMode::ByExtension, MaterializeMode::ByPath, MaterializeMode::BySize, MaterializeMode::ByAge, MaterializeMode::Random]
    }

    pub fn all() -> (r: &'static [MaterializeMode])
        ensures
            r@ == Self::variants(),
    {
        &[MaterializeMode::Off, MaterializeMode::ByExtension, MaterializeMode::ByPath, MaterializeMode::BySize, MaterializeMode::ByAge, MaterializeMode::Random]
    }

    /// `all()` lists every variant exactly once.
    pub proof fn lemma_all_lists_each_once(m: Self)
        ensures
            Self::variants().contains(m),
            forall|i: int, j: int|
                0 <= i < j < Self::variants().len() ==> Self::variants()[i] != Self::variants()[j],
    {
        match m {
            MaterializeMode::Off => assert(Self::variants()[0] == m),
            MaterializeMode::ByExtension => assert(Self::variants()[1] == m),
            MaterializeMode::ByPath => assert(Self::variants()[2] == m),
            MaterializeMode::BySize => assert(Self::variants()[3] == m),
            MaterializeMode::ByAge => assert(Self::variants()[4] == m),
            MaterializeMode::Random => assert(Self::variants()[5] == m),
        }
    }

    /// The source a legacy preset stands for.
    pub open spec fn source_of(self) -> MaterialSource {
        match self {
            MaterializeMode::Off => MaterialSource::Off,
            MaterializeMode::ByExtension => MaterialSource::Extension,
            MaterializeMode::ByPath => MaterialSource::Path,
            MaterializeMode::BySize => MaterialSource::Size,
            MaterializeMode::ByAge => MaterialSource::Age,
            MaterializeMode::Random => MaterialSource::Random,
        }
    }

    /// Convert legacy mode to new source enum.
    pub fn to_source(self) -> (r: MaterialSource)
        ensures
            r == self.source_of(),
    {
        match self {
            MaterializeMode::Off => MaterialSource::Off,
            MaterializeMode::ByExtension => MaterialSource::Extension,
            MaterializeMode::ByPath => MaterialSource::Path,
            MaterializeMode::BySize => MaterialSource::Size,
            MaterializeMode::ByAge => MaterialSource::Age,
            MaterializeMode::Random => MaterialSource::Random,
        }
    }

}

/// Perceptual colour palette for material gradients.
#[derive(Debug, Clone, Copy, PartialEq, Eq, Structural, Hash)]
pub enum Palette {
    Viridis,
    Magma,
    Plasma,
    Turbo,
    Sunset,
    Cubehelix,
}

impl Palette {
    /// Display label shown in the settings UI.
    pub open spec fn label(self) -> Seq<char> {
        match self {
            Palette::Viridis => "Viridis"@,
            Palette::Magma => "Magma"@,
            Palette::Plasma => "Plasma"@,
            Palette::Turbo => "Turbo"@,
            Palette::Sunset => "Sunset"@,
            Palette::Cubehelix => "Cubehelix"@,
        }
    }

    pub fn name(self) -> (r: &'static str)
        ensures
            r@ == (self).label(),
    {
        match self {
            Palette::Viridis => "Viridis",
            Palette::Magma => "Magma",
            Palette::Plasma => "Plasma",
            Palette::Turbo => "Turbo",
            Palette::Sunset => "Sunset",
            Palette::Cubehelix => "Cubehelix",
        }
    }

    /// Every variant, in declaration order.
    pub open spec fn variants() -> Seq<Self> {
        seq![Palette::Viridis, Palette::Magma, Palette::Plasma, Palette::Turbo, Palette::Sunset, Palette::Cubehelix]
    }

    pub fn all() -> (r: &'static [Palette])
        ensures
            r@ == Self::variants(),
    {
        &[Palette::Viridis, Palette::Magma, Palette::Plasma, Palette::Turbo, Palette::Sunset, Palette::Cubehelix]
    }

    /// `all()` lists every variant exactly once.
    pub proof fn lemma_all_lists_each_once(m: Self)
        ensures
            Self::variants().contains(m),
            forall|i: int, j: int|
                0 <= i < j < Self::variants().len() ==> Self::variants()[i] != Self::variants()[j],
    {
        match m {
            Palette::Viridis => assert(Self::variants()[0] == m),
            Palette::Magma => assert(Self::variants()[1] == m),
            Palette::Plasma => assert(Self::variants()[2] == m),
            Palette::Turbo => assert(Self::variants()[3] == m),
            Palette::Sunset => assert(Self::variants()[4] == m),
            Palette::Cubehelix => assert(Self::variants()[5] == m),
        }
    }

    /// Stable index for material-id arithmetic; the order matches `all()`.
    pub open spec fn slot(self) -> u32 {
        match self {
            Palette::Viridis => 0,
            Palette::Magma => 1,
            Palette::Plasma => 2,
            Palette::Turbo => 3,
            Palette::Sunset => 4,
            Palette::Cubehelix => 5,
        }
    }

    pub fn idx(self) -> (r: u32)
        ensures
            r == (self).slot(),
    {
        match self {
            Palette::Viridis => 0,
            Palette::Magma => 1,
            Palette::Plasma => 2,
            Palette::Turbo => 3,
            Palette::Sunset => 4,
            Palette::Cubehelix => 5,
        }
    }

    pub fn count() -> (r: u32)
        ensures
            r == Self::variants().len(),
    {
        Self::all().len() as u32
    }

    /// `idx` is dense and unique: every palette sits at its own index in
    /// `all()`, and the indices are exactly `0..count()`.
    pub proof fn lemma_idx_matches_all(p: Palette, q: Palette)
        ensures
            p.slot() < Self::variants().len(),
            Self::variants()[p.slot() as int] == p,
            p.slot() == q.slot() ==> p == q,
    {
    }

}

impl Default for Palette {
    fn default() -> (r: Self)
        ensures
            r == Palette::Viridis,
    {
        Palette::Viridis
    }
}

/// Palette that matches the natural ordering of a source.
pub open spec fn palette_for_source(s: MaterialSource) -> Palette {
    match s {
        MaterialSource::Size => Palette::Viridis,
        MaterialSource::Depth => Palette::Cubehelix,
        MaterialSource::Age => Palette::Sunset,
        MaterialSource::Path => Palette::Turbo,
        MaterialSource::Extension => Palette::Plasma,
        MaterialSource::Random => Palette::Turbo,
        MaterialSource::Off => Palette::Viridis,
    }
}

/// Pick a palette that matches the natural ordering of a source: ordered
/// sources get sequential / diverging ramps, categorical ones get
/// high-frequency palettes.
pub fn auto_palette_for_source(s: MaterialSource) -> (r: Palette)
    ensures
        r == palette_for_source(s),
{
    match s {
        MaterialSource::Size => Palette::Viridis,
        MaterialSource::Depth => Palette::Cubehelix,
        MaterialSource::Age => Palette::Sunset,
        MaterialSource::Path => Palette::Turbo,
        MaterialSource::Extension => Palette::Plasma,
        MaterialSource::Random => Palette::Turbo,
        MaterialSource::Off => Palette::Viridis,
    }
}

/// Auto-routed palette per `ColorMode`.
pub open spec fn palette_for_color_mode(m: ColorMode) -> Palette {
    match m {
        ColorMode::FileSize => Palette::Viridis,
        ColorMode::FileAge => Palette::Sunset,
        ColorMode::Depth => Palette::Cubehelix,
        ColorMode::FileType => Palette::Plasma,
        ColorMode::Treemap => Palette::Turbo,
    }
}

pub fn default_palette_for_color_mode(m: ColorMode) -> (r: Palette)
    ensures
        r == palette_for_color_mode(m),
{
    match m {
        ColorMode::FileSize => Palette::Viridis,
        ColorMode::FileAge => Palette::Sunset,
        ColorMode::Depth => Palette::Cubehelix,
        ColorMode::FileType => Palette::Plasma,
        ColorMode::Treemap => Palette::Turbo,
    }
}

/// Auto-routed palette per `FolderColorMode`.
pub open spec fn palette_for_folder_mode(m: FolderColorMode) -> Palette {
    match m {
        FolderColorMode::Depth => Palette::Cubehelix,
        FolderColorMode::NameHash => Palette::Plasma,
        FolderColorMode::PathHash => Palette::Turbo,
    }
}

pub fn default_palette_for_folder_mode(m: FolderColorMode) -> (r: Palette)
    ensures
        r == palette_for_folder_mode(m),
{
    match m {
        FolderColorMode::Depth => Palette::Cubehelix,
        FolderColorMode::NameHash => Palette::Plasma,
        FolderColorMode::PathHash => Palette::Turbo,
    }
}


/// The palette routed to each colour mode: file size to Viridis, file age to
/// Sunset, depth to Cubehelix, file type (the default mode) to Plasma, and
/// treemap to Turbo.
pub proof fn lemma_color_mode_palettes()
    ensures
        palette_for_color_mode(ColorMode::FileSize) == Palette::Viridis,
        palette_for_color_mode(ColorMode::FileAge) == Palette::Sunset,
        palette_for_color_mode(ColorMode::Depth) == Palette::Cubehelix,
        palette_for_color_mode(ColorMode::FileType) == Palette::Plasma,
        palette_for_color_mode(ColorMode::Treemap) == Palette::Turbo,
{
}


/// The palette routed to each folder colour mode: depth to Cubehelix, name
/// hash to Plasma, path hash to Turbo.
pub proof fn lemma_folder_mode_palettes()
    ensures
        palette_for_folder_mode(FolderColorMode::Depth) == Palette::Cubehelix,
        palette_for_folder_mode(FolderColorMode::NameHash) == Palette::Plasma,
        palette_for_folder_mode(FolderColorMode::PathHash) == Palette::Turbo,
{
}

/// The palette matched to each material source: size and off to Viridis,
/// depth to Cubehelix, age to Sunset, extension to Plasma, and the
/// categorical path and random sources to Turbo.
pub proof fn lemma_source_palettes()
    ensures
        palette_for_source(MaterialSource::Size) == Palette::Viridis,
        palette_for_source(MaterialSource::Depth) == Palette::Cubehelix,
        palette_for_source(MaterialSource::Age) == Palette::Sunset,
        palette_for_source(MaterialSource::Path) == Palette::Turbo,
        palette_for_source(MaterialSource::Extension) == Palette::Plasma,
        palette_for_source(MaterialSource::Random) == Palette::Turbo,
        palette_for_source(MaterialSource::Off) == Palette::Viridis,
{
}

/// Each legacy materialize mode maps to the source of the same name, and
/// different modes to different sources; no mode maps to `Depth`.
pub proof fn lemma_materialize_mode_sources(a: MaterializeMode, b: MaterializeMode)
    ensures
        MaterializeMode::Off.source_of() == MaterialSource::Off,
        MaterializeMode::ByExtension.source_of() == MaterialSource::Extension,
        MaterializeMode::ByPath.source_of() == MaterialSource::Path,
        MaterializeMode::BySize.source_of() == MaterialSource::Size,
        MaterializeMode::ByAge.source_of() == MaterialSource::Age,
        MaterializeMode::Random.source_of() == MaterialSource::Random,
        a.source_of() == b.source_of() ==> a == b,
        a.source_of() != MaterialSource::Depth,
{
}

} // verus!
