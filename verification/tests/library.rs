use squarebob::library::{Material, MaterialLibrary};

fn mat(uuid: u128, name: &str) -> Material<f32> {
    Material { uuid, name: name.to_string(), payload: 1.5 }
}

fn lib(n: u128) -> MaterialLibrary<f32> {
    MaterialLibrary { materials: (0..n).map(|i| mat(i + 1, &format!("m{i}"))).collect(), active: 0 }
}

#[test]
fn push_returns_new_index() {
    let mut l = lib(2);
    assert_eq!(l.push(mat(9, "new")), 2);
    assert_eq!(l.len(), 3);
    assert!(!l.is_empty());
}

#[test]
fn duplicate_appends_renamed_copy_with_fresh_uuid() {
    let mut l = lib(2);
    assert_eq!(l.duplicate(1), Some(2));
    let copy = &l.materials[2];
    assert_eq!(copy.name, "m1 copy");
    assert_eq!(copy.payload, 1.5);
    assert_eq!((copy.uuid >> 76) & 0xF, 4);
    assert_eq!(l.duplicate(7), None);
    assert_eq!(l.len(), 3);
}

#[test]
fn remove_keeps_active_in_range_and_never_empties() {
    let mut l = lib(3);
    l.set_active(2);
    l.remove(2);
    assert_eq!(l.len(), 2);
    assert_eq!(l.active, 1);
    l.remove(5);
    assert_eq!(l.len(), 2);
    l.remove(0);
    l.remove(0);
    assert_eq!(l.len(), 1);
    assert_eq!(l.active, 0);
    assert_eq!(l.materials[0].name, "m1");
}

#[test]
fn set_active_clamps() {
    let mut l = lib(3);
    l.set_active(10);
    assert_eq!(l.active, 2);
    assert_eq!(l.active_material().map(|m| m.name.as_str()), Some("m2"));
    let mut empty = lib(0);
    empty.set_active(4);
    assert_eq!(empty.active, 0);
    assert!(empty.active_material().is_none());
    assert!(empty.is_empty());
}

#[test]
fn find_by_uuid_returns_first_match() {
    let mut l = lib(3);
    l.push(mat(2, "dup"));
    let (i, m) = l.find_by_uuid(2).unwrap();
    assert_eq!((i, m.name.as_str()), (1, "m1"));
    assert!(l.find_by_uuid(77).is_none());
}

#[test]
fn active_material_mut_edits_the_active_slot() {
    let mut l = lib(3);
    l.active = 1;
    l.active_material_mut().unwrap().name = "edited".to_string();
    assert_eq!(l.materials[1].name, "edited");
    assert_eq!(l.materials[0].name, "m0");
    l.active = 5;
    assert!(l.active_material_mut().is_none());
}

#[test]
fn find_by_uuid_mut_edits_first_match() {
    let mut l = lib(3);
    l.materials[2].uuid = 2;
    let (i, m) = l.find_by_uuid_mut(2).unwrap();
    assert_eq!(i, 1);
    m.payload = 9.0;
    assert_eq!(l.materials[1].payload, 9.0);
    assert_eq!(l.materials[2].payload, 1.5);
    assert!(l.find_by_uuid_mut(42).is_none());
}
