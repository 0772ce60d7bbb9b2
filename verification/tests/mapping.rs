use squarebob::mapping::{Mapping, N_COLOR_MODES, N_FOLDER_COLOR_MODES, N_HASH_EFFECTS, N_HEIGHT_MODES};

#[derive(Debug, Clone, Copy, PartialEq)]
struct CurveParams {
    scale: f32,
    exponent: f32,
}

impl Default for CurveParams {
    fn default() -> Self {
        Self { scale: 1.0, exponent: 1.0 }
    }
}

#[test]
fn mapping_default_fills_all_slots() {
    let m: Mapping<CurveParams, 4> = Mapping::default();
    for p in m.per_mode {
        assert_eq!(p.scale, 1.0);
        assert_eq!(p.exponent, 1.0);
    }
}

#[test]
fn mapping_get_clamps_out_of_range() {
    let m: Mapping<CurveParams, 4> = Mapping::default();
    let _ = m.get(999);
}

#[test]
fn mapping_write_then_read() {
    let mut m: Mapping<u32, 4> = Mapping::default();
    *m.get_mut(1) = 10;
    *m.get_mut(999) = 30;
    assert_eq!(m.get(0), 0);
    assert_eq!(m.get(1), 10);
    assert_eq!(m.get(3), 30);
    assert_eq!(m.get(17), 30);
}

#[test]
fn mapping_from_slots_pads_and_truncates() {
    let short: Mapping<u32, 4> = Mapping::from_slots(&[5, 6]);
    assert_eq!(short.per_mode, [5, 6, 0, 0]);
    let long: Mapping<u32, 2> = Mapping::from_slots(&[5, 6, 7]);
    assert_eq!(long.per_mode, [5, 6]);
}

#[test]
fn mode_counts() {
    assert_eq!((N_HEIGHT_MODES, N_COLOR_MODES, N_FOLDER_COLOR_MODES, N_HASH_EFFECTS), (8, 5, 3, 18));
    assert_eq!(squarebob::modes::HashTransformEffect::all().len(), N_HASH_EFFECTS);
}
