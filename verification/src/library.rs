//! Scene-owned ordered collection of materials with an editor selection.
//!
//! The library only reads a material's identity (its UUID, as a 128-bit
//! value) and its display name; everything else a material carries is an
//! opaque payload `P` that is moved and cloned along with it.
use vstd::prelude::*;

use crate::uuids::{is_v4_uuid, new_v4_uuid};

verus! {

/// One material entry: stable identity, display name, and payload.
#[derive(Debug, Clone)]
pub struct Material<P> {
    /// Stable identifier (the UUID's 128-bit value); survives reorder and rename.
    pub uuid: u128,
    /// Display name, free-form.
    pub name: String,
    /// Everything else the material holds (parameters, variance, weight).
    pub payload: P,
}

/// Ordered library of materials. Cubes reference entries by index; `active`
/// is the editor selection.
#[derive(Debug, Clone)]
pub struct MaterialLibrary<P> {
    pub materials: Vec<Material<P>>,
    pub active: usize,
}

impl<P: Clone> MaterialLibrary<P> {
    /// Number of materials in the library.
    pub fn len(&self) -> (r: usize)
        ensures
            r == self.materials@.len(),
    {
        self.materials.len()
    }

    /// `true` when the library has zero entries.
    pub fn is_empty(&self) -> (r: bool)
        ensures
            r == (self.materials@.len() == 0),
    {
        self.materials.len() == 0
    }

    /// The active material, or `None` when `active` is out of range.
    pub fn active_material(&self) -> (r: Option<&Material<P>>)
        ensures
            match r {
                Some(m) => self.active < self.materials@.len() && *m == self.materials@[self.active as int],
                None => self.active >= self.materials@.len(),
            },
    {
        if self.active < self.materials.len() {
            Some(&self.materials[self.active])
        } else {
            None
        }
    }

    /// The active material for editing in place, or `None` when `active` is
    /// out of range. Whatever is written through the reference lands in the
    /// active slot; nothing else changes.
    pub fn active_material_mut(&mut self) -> (r: Option<&mut Material<P>>)
        ensures
            r is Some <==> old(self).active < old(self).materials@.len(),
            final(self).active == old(self).active,
            r matches Some(m) ==> *m == old(self).materials@[old(self).active as int]
                && final(self).materials@ == old(self).materials@.update(
                old(self).active as int,
                *final(m),
            ),
            r is None ==> final(self).materials@ == old(self).materials@,
    {
        if self.active < self.materials.len() {
            let i = self.active;
            Some(&mut self.materials[i])
        } else {
            None
        }
    }

    /// Append a new material. Returns its index.
    pub fn push(&mut self, m: Material<P>) -> (r: usize)
        requires
            old(self).materials@.len() < usize::MAX,
        ensures
            final(self).materials@ == old(self).materials@.push(m),
            final(self).active == old(self).active,
            r == old(self).materials@.len(),
    {
        self.materials.push(m);
        self.materials.len() - 1
    }

    /// Duplicate the entry at `index` under a fresh UUID and the name
    /// suffixed with " copy". Returns the new entry's index; no-op when
    /// `index` is out of range.
    pub fn duplicate(&mut self, index: usize) -> (r: Option<usize>)
        requires
            old(self).materials@.len() < usize::MAX,
        ensures
            final(self).active == old(self).active,
            index >= old(self).materials@.len() ==> r is None && final(self).materials@ == old(self).materials@,
            index < old(self).materials@.len() ==> {
                let src = old(self).materials@[index as int];
                let copy = final(self).materials@.last();
                &&& r == Some(old(self).materials@.len() as usize)
                &&& final(self).materials@.len() == old(self).materials@.len() + 1
                &&& final(self).materials@.drop_last() == old(self).materials@
                &&& copy.name@ == src.name@ + " copy"@
                &&& is_v4_uuid(copy.uuid)
                &&& cloned::<P>(src.payload, copy.payload)
            },
    {
        if index >= self.materials.len() {
            return None;
        }
        let src = &self.materials[index];
        let mut name = src.name.clone();
        name.append(" copy");
        let copy = Material { uuid: new_v4_uuid(), name, payload: src.payload.clone() };
        Some(self.push(copy))
    }

    /// Remove the entry at `index`, keeping `active` in range. No-op when
    /// `index` is out of range; refuses to empty the library so the editor
    /// always has an active selection.
    pub fn remove(&mut self, index: usize)
        ensures
            (index >= old(self).materials@.len() || old(self).materials@.len() <= 1)
                ==> final(self).materials@ == old(self).materials@ && final(self).active == old(self).active,
            (index < old(self).materials@.len() && old(self).materials@.len() > 1) ==> {
                &&& final(self).materials@ == old(self).materials@.remove(index as int)
                &&& final(self).active == if old(self).active >= final(self).materials@.len() {
                    (final(self).materials@.len() - 1) as usize
                } else {
                    old(self).active
                }
            },
            old(self).materials@.len() > 0 && old(self).active < old(self).materials@.len()
                ==> final(self).materials@.len() > 0 && final(self).active < final(self).materials@.len(),
    {
        if index >= self.materials.len() || self.materials.len() <= 1 {
            return;
        }
        self.materials.remove(index);
        if self.active >= self.materials.len() {
            self.active = self.materials.len() - 1;
        }
    }

    /// Set the active slot, clamping to a valid range.
    pub fn set_active(&mut self, index: usize)
        ensures
            final(self).materials@ == old(self).materials@,
            final(self).active == if old(self).materials@.len() == 0 {
                0
            } else if index < old(self).materials@.len() {
                index
            } else {
                (old(self).materials@.len() - 1) as usize
            },
    {
        let last = if self.materials.len() == 0 {
            0
        } else {
            self.materials.len() - 1
        };
        self.active = if index < last {
            index
        } else {
            last
        };
    }

    /// Lookup by UUID (linear scan): the first entry with that UUID.
    pub fn find_by_uuid(&self, uuid: u128) -> (r: Option<(usize, &Material<P>)>)
        ensures
            match r {
                Some((i, m)) => i < self.materials@.len() && self.materials@[i as int].uuid == uuid
                    && *m == self.materials@[i as int] && forall|j: int|
                    0 <= j < i ==> self.materials@[j].uuid != uuid,
                None => forall|j: int|
                    0 <= j < self.materials@.len() ==> self.materials@[j].uuid != uuid,
            },
    {
        let mut i: usize = 0;
        while i < self.materials.len()
            invariant
                i <= self.materials@.len(),
                forall|j: int| 0 <= j < i ==> self.materials@[j].uuid != uuid,
            decreases self.materials@.len() - i,
        {
            if self.materials[i].uuid == uuid {
                return Some((i, &self.materials[i]));
            }
            i += 1;
        }
        None
    }

    /// Mutable counterpart of `find_by_uuid`: the first entry with that UUID,
    /// for editing in place. Whatever is written through the reference lands
    /// in that slot; nothing else changes.
    pub fn find_by_uuid_mut(&mut self, uuid: u128) -> (r: Option<(usize, &mut Material<P>)>)
        ensures
            final(self).active == old(self).active,
            match r {
                Some((i, m)) => {
                    &&& i < old(self).materials@.len()
                    &&& old(self).materials@[i as int].uuid == uuid
                    &&& forall|j: int| 0 <= j < i ==> old(self).materials@[j].uuid != uuid
                    &&& *m == old(self).materials@[i as int]
                    &&& final(self).materials@ == old(self).materials@.update(i as int, *final(m))
                },
                None => {
                    &&& forall|j: int|
                        0 <= j < old(self).materials@.len() ==> old(self).materials@[j].uuid != uuid
                    &&& final(self).materials@ == old(self).materials@
                },
            },
    {
        let mut i: usize = 0;
        while i < self.materials.len()
            invariant
                i <= self.materials@.len(),
                self.materials@ == old(self).materials@,
                self.active == old(self).active,
                forall|j: int| 0 <= j < i ==> self.materials@[j].uuid != uuid,
            decreases self.materials@.len() - i,
        {
            if self.materials[i].uuid == uuid {
                return Some((i, &mut self.materials[i]));
            }
            i += 1;
        }
        None
    }
}

} // verus!
