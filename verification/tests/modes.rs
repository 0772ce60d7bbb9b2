use squarebob::materials::{
    auto_palette_for_source, default_palette_for_color_mode, default_palette_for_folder_mode,
    MaterialDistribution, MaterialSource, MaterializeMode, Palette,
};
use squarebob::modes::{
    backend_from_opts, AcesOdt, AcesRrt, AdaptivePreset, ColorMode, CubeHeightMode,
    FolderColorMode, HashTransformEffect, HoverMode, PtBackendKind, PtBackendOptions,
    PtSamplerMode, RenderBackend, RenderMode, SpectralMode, TonemapKind,
};

#[test]
fn auto_route_covers_every_source() {
    for s in [
        MaterialSource::Off,
        MaterialSource::Extension,
        MaterialSource::Path,
        MaterialSource::Size,
        MaterialSource::Age,
        MaterialSource::Depth,
        MaterialSource::Random,
    ] {
        let _ = auto_palette_for_source(s);
    }
}

#[test]
fn aces_odt_gpu_tags_are_stable() {
    assert_eq!(AcesOdt::Srgb100nits.gpu_tag(), 0);
    assert_eq!(AcesOdt::Rec709.gpu_tag(), 1);
    assert_eq!(AcesOdt::Rec2020_1000nits.gpu_tag(), 2);
    assert_eq!(AcesOdt::P3D65.gpu_tag(), 3);
    assert_eq!(AcesOdt::DciP3.gpu_tag(), 4);
    assert_eq!(AcesOdt::SrgbHdrSim.gpu_tag(), 5);
}

#[test]
fn palette_idx_is_dense_and_unique() {
    let mut seen = std::collections::HashSet::new();
    for p in Palette::all() {
        assert!(seen.insert(p.idx()), "duplicate idx for {:?}", p);
    }
    assert_eq!(seen.len(), Palette::count() as usize);
}

#[test]
fn palette_idx_matches_all_order() {
    for (i, p) in Palette::all().iter().enumerate() {
        assert_eq!(p.idx() as usize, i);
    }
    assert_eq!(Palette::count(), 6);
    assert_eq!(Palette::Sunset.name(), "Sunset");
}

#[test]
fn tonemap_and_rrt_tags_are_stable() {
    assert_eq!(TonemapKind::Off.gpu_tag(), 0);
    assert_eq!(TonemapKind::AcesFilmic.gpu_tag(), 3);
    assert_eq!(TonemapKind::AcesFull.gpu_tag(), 4);
    assert_eq!(TonemapKind::default(), TonemapKind::AcesFilmic);
    assert_eq!(AcesRrt::Standard.gpu_tag(), 0);
    assert_eq!(AcesRrt::A1_1.gpu_tag(), 1);
    assert_eq!(AcesRrt::Off.gpu_tag(), 2);
}

#[test]
fn hover_mode_wgsl_values() {
    let values: Vec<u32> = HoverMode::all().iter().map(|m| m.to_u32()).collect();
    assert_eq!(values, vec![0, 1, 2, 3]);
    assert_eq!(HoverMode::Both.name(), "Both");
}

#[test]
fn labels_match_the_settings_ui() {
    assert_eq!(RenderBackend::Cpu.name(), "CPU (Rayon)");
    assert_eq!(RenderBackend::Gpu.name(), "GPU (wgpu)");
    assert_eq!(RenderMode::Mode3D.name(), "3D");
    assert_eq!(CubeHeightMode::DepthSquared.name(), "Depth^2");
    assert_eq!(ColorMode::FileType.name(), "File Type");
    assert_eq!(FolderColorMode::NameHash.name(), "Name");
    assert_eq!(AdaptivePreset::Conservative.name(), "Low");
    assert_eq!(PtSamplerMode::R2.name(), "R2");
    assert_eq!(SpectralMode::Multi.name(), "Multi");
    assert_eq!(HashTransformEffect::Rotate3D.name(), "Rotate 3D");
    assert_eq!(MaterialSource::Off.name(), "None");
    assert_eq!(MaterialDistribution::Gradient.name(), "Gradient");
    assert_eq!(MaterializeMode::ByPath.name(), "By Path");
}

#[test]
fn variant_lists_are_complete() {
    assert_eq!(RenderBackend::all().len(), 2);
    assert_eq!(RenderMode::all().len(), 2);
    assert_eq!(ColorMode::all().len(), 5);
    assert_eq!(FolderColorMode::all().len(), 3);
    assert_eq!(AdaptivePreset::all().len(), 4);
    assert_eq!(SpectralMode::all().len(), 3);
    assert_eq!(HashTransformEffect::all().len(), 18);
    assert_eq!(HashTransformEffect::all()[17], HashTransformEffect::Echo);
    assert_eq!(MaterialSource::all().len(), 7);
    assert_eq!(MaterialDistribution::all().len(), 5);
    assert_eq!(MaterializeMode::all().len(), 6);
}

#[test]
fn legacy_modes_map_to_sources() {
    assert_eq!(MaterializeMode::Off.to_source(), MaterialSource::Off);
    assert_eq!(MaterializeMode::ByExtension.to_source(), MaterialSource::Extension);
    assert_eq!(MaterializeMode::ByAge.to_source(), MaterialSource::Age);
    assert_eq!(MaterializeMode::Random.to_source(), MaterialSource::Random);
}

#[test]
fn palette_routing_by_context() {
    assert_eq!(auto_palette_for_source(MaterialSource::Size), Palette::Viridis);
    assert_eq!(auto_palette_for_source(MaterialSource::Depth), Palette::Cubehelix);
    assert_eq!(auto_palette_for_source(MaterialSource::Age), Palette::Sunset);
    assert_eq!(auto_palette_for_source(MaterialSource::Extension), Palette::Plasma);
    assert_eq!(default_palette_for_color_mode(ColorMode::Treemap), Palette::Turbo);
    assert_eq!(default_palette_for_color_mode(ColorMode::FileAge), Palette::Sunset);
    assert_eq!(default_palette_for_folder_mode(FolderColorMode::Depth), Palette::Cubehelix);
    assert_eq!(default_palette_for_folder_mode(FolderColorMode::PathHash), Palette::Turbo);
}

#[test]
fn backend_selection_priority() {
    let pick = |spectral, wavefront| {
        backend_from_opts(&PtBackendOptions { pt_spectral_mode: spectral, pt_wavefront: wavefront })
    };
    assert_eq!(pick(SpectralMode::Hero, true), PtBackendKind::Spectral);
    assert_eq!(pick(SpectralMode::Off, true), PtBackendKind::Wavefront);
    assert_eq!(pick(SpectralMode::Off, false), PtBackendKind::Megakernel);
}

#[test]
fn defaults_of_the_enums() {
    assert_eq!(RenderBackend::default(), RenderBackend::Cpu);
    assert_eq!(ColorMode::default(), ColorMode::Treemap);
    assert_eq!(HoverMode::default(), HoverMode::Off);
    assert_eq!(MaterialDistribution::default(), MaterialDistribution::Direct);
    assert_eq!(Palette::default(), Palette::Viridis);
}
