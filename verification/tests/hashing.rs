use squarebob::hashing::{
    canonical_object_id, channel_seed, component_hash, hash_derive, name_hash,
    OBJECT_ID_SELECTED_BIT,
};

#[test]
fn name_hash_is_base_31_polynomial() {
    assert_eq!(name_hash(""), 0);
    assert_eq!(name_hash("ab"), 97 * 31 + 98);
    assert_eq!(name_hash("hello"), 99162322);
}

#[test]
fn component_hash_is_fnv1a() {
    assert_eq!(component_hash(""), 0x811c9dc5);
    assert_eq!(component_hash("a"), 0xe40c292c);
    assert_eq!(component_hash("abc"), 0x1a47e90b);
}

#[test]
fn hash_derive_mixes_salt() {
    assert_eq!(hash_derive(1, 0), 182531539);
    assert_eq!(hash_derive(7, 5), 2052274592);
}

#[test]
fn channel_seed_is_splitmix() {
    assert_eq!(channel_seed(0, 0), 0);
    assert_eq!(channel_seed(1, 0), 0xe220a8397b1dcdaf);
    assert_eq!(channel_seed(42, 3), 0xfca8a753be44f390);
    assert_ne!(channel_seed(42, 3), channel_seed(42, 4));
}

#[test]
fn canonical_id_drops_selection_bit() {
    assert_eq!(canonical_object_id(5), 5);
    assert_eq!(canonical_object_id(5 | OBJECT_ID_SELECTED_BIT), 5);
    assert_eq!(canonical_object_id(u32::MAX), 0x7FFF_FFFF);
    assert_eq!(canonical_object_id(canonical_object_id(0x8000_0007)), 7);
}
