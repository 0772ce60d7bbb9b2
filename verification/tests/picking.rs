use squarebob::layout::ReadbackError;
use squarebob::picking::{decode_pick_texel, PickingState};

#[test]
fn ids_start_at_one_and_map_back() {
    let mut p = PickingState::new();
    let a = p.alloc_id("/root/a.txt", 10, false);
    let b = p.alloc_id("/root/dir", 0, true);
    assert_eq!((a, b), (1, 2));
    assert_eq!(p.path_for_id(a).map(|s| s.as_str()), Some("/root/a.txt"));
    assert_eq!(p.size_for_id(a), Some(10));
    assert_eq!(p.is_dir_for_id(b), Some(true));
    assert_eq!(p.id_for_path("/root/dir"), Some(2));
    assert_eq!(p.id_for_path("/nowhere"), None);
    assert!(p.path_for_id(0).is_none());
    assert!(p.info_for_id(0).is_none());
}

#[test]
fn selection_bit_is_ignored_in_lookups() {
    let mut p = PickingState::default();
    let a = p.alloc_id("x", 3, false);
    assert_eq!(p.path_for_id(a | 0x8000_0000).map(|s| s.as_str()), Some("x"));
    assert_eq!(p.size_for_id(a | 0x8000_0000), Some(3));
    assert_eq!(p.info_for_id(a | 0x8000_0000).map(|i| i.size), Some(3));
}

#[test]
fn reset_frame_reuses_entries() {
    let mut p = PickingState::new();
    p.alloc_id("x", 3, false);
    p.reset_frame();
    // Same path at the same id: the path is kept, size and kind are updated.
    assert_eq!(p.alloc_id("x", 99, true), 1);
    assert_eq!(p.path_for_id(1).map(|s| s.as_str()), Some("x"));
    assert_eq!(p.size_for_id(1), Some(99));
    assert_eq!(p.is_dir_for_id(1), Some(true));
    p.reset_frame();
    // A different path replaces it.
    assert_eq!(p.alloc_id("y", 7, true), 1);
    assert_eq!(p.size_for_id(1), Some(7));
    assert_eq!(p.is_dir_for_id(1), Some(true));
}

#[test]
fn request_pick_records_coordinates() {
    let mut p = PickingState::new();
    assert!(p.pending_pick.is_none());
    p.request_pick(4, 5);
    assert_eq!(p.pending_pick, Some((4, 5)));
}

#[test]
fn pick_texel_decodes_little_endian_and_drops_selection_bit() {
    let row = [0u8, 0, 0, 0, 0x34, 0x12, 0, 0x80, 7, 0, 0, 0];
    assert_eq!(decode_pick_texel(&row, 1).unwrap(), 0x1234);
    assert_eq!(decode_pick_texel(&row, 2).unwrap(), 7);
    match decode_pick_texel(&row, 3) {
        Err(ReadbackError::MappedRangeTooSmall { expected, actual }) => assert_eq!((expected, actual), (16, 12)),
        other => panic!("unexpected {other:?}"),
    }
}
