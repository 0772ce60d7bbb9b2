//! Persistent per-mode parameter storage: one slot per enum variant, so
//! switching modes preserves each variant's own settings.
use vstd::prelude::*;

use crate::modes::{ColorMode, FolderColorMode, HashTransformEffect};

verus! {

/// Number of `CubeHeightMode` variants.
pub const N_HEIGHT_MODES: usize = 8;

/// Number of `ColorMode` variants.
pub const N_COLOR_MODES: usize = 5;

/// Number of `FolderColorMode` variants.
pub const N_FOLDER_COLOR_MODES: usize = 3;

/// Number of hash-effect parameter slots.
pub const N_HASH_EFFECTS: usize = 18;

/// Slot that an index reads: out-of-range indices clamp to the last slot.
pub open spec fn clamped_slot(idx: int, n: int) -> int {
    if idx < n - 1 {
        idx
    } else {
        n - 1
    }
}

/// Persistent per-mode storage, indexed by `mode as usize`. `N` must match
/// the enum's variant count.
#[derive(Debug, Clone)]
pub struct Mapping<P, const N: usize> where P: Default + Copy {
    pub per_mode: [P; N],
}

impl<P, const N: usize> Default for Mapping<P, N> where P: Default + Copy {
    fn default() -> (r: Self)
        ensures
            forall|i: int| 0 <= i < N ==> call_ensures(P::default, (), #[trigger] r.per_mode@[i]),
    {
        Mapping { per_mode: [P::default();N] }
    }
}

impl<P, const N: usize> Mapping<P, N> where P: Default + Copy {
    /// Read the slot for `idx`. Out-of-range indices clamp to the last slot.
    pub fn get(&self, idx: usize) -> (r: P)
        requires
            N > 0,
        ensures
            r == self.per_mode@[clamped_slot(idx as int, N as int)],
    {
        let i = if idx < N - 1 {
            idx
        } else {
            N - 1
        };
        self.per_mode[i]
    }

    /// Mutable slot for `idx`. Out-of-range indices clamp.
    pub fn get_mut(&mut self, idx: usize) -> (r: &mut P)
        requires
            N > 0,
        ensures
            *r == old(self).per_mode@[clamped_slot(idx as int, N as int)],
            final(self).per_mode@ == old(self).per_mode@.update(
                clamped_slot(idx as int, N as int),
                *final(r),
            ),
    {
        let i = if idx < N - 1 {
            idx
        } else {
            N - 1
        };
        &mut self.per_mode[i]
    }

    /// Build a mapping from stored slots, padding with defaults when there
    /// are too few entries and dropping the surplus when there are too many,
    /// so that configuration drift across refactors stays non-fatal.
    pub fn from_slots(raw: &[P]) -> (r: Self)
        ensures
            forall|i: int|
                0 <= i < N ==> if i < raw@.len() {
                    #[trigger] r.per_mode@[i] == raw@[i]
                } else {
                    call_ensures(P::default, (), r.per_mode@[i])
                },
    {
        let mut per_mode: [P; N] = [P::default();N];
        let mut i: usize = 0;
        while i < N && i < raw.len()
            invariant
                i <= N,
                forall|j: int|
                    0 <= j < N ==> if j < i && j < raw@.len() {
                        #[trigger] per_mode@[j] == raw@[j]
                    } else {
                        call_ensures(P::default, (), per_mode@[j])
                    },
            decreases N - i,
        {
            per_mode[i] = raw[i];
            i += 1;
        }
        Mapping { per_mode }
    }
}

/// Writing through `get_mut(idx)` and then reading `get(j)` observes the
/// write exactly when `j` clamps to the same slot as `idx`; every other slot
/// keeps its value.
pub proof fn lemma_get_mut_then_get<P: Default + Copy, const N: usize>(
    before: Mapping<P, N>,
    after: Mapping<P, N>,
    idx: usize,
    value: P,
    j: usize,
)
    requires
        N > 0,
        after.per_mode@ == before.per_mode@.update(clamped_slot(idx as int, N as int), value),
    ensures
        clamped_slot(j as int, N as int) == clamped_slot(idx as int, N as int) ==> after.per_mode@[clamped_slot(j as int, N as int)] == value,
        clamped_slot(j as int, N as int) != clamped_slot(idx as int, N as int) ==> after.per_mode@[clamped_slot(j as int, N as int)] == before.per_mode@[clamped_slot(j as int, N as int)],
{
}

/// The listed mode enums have exactly as many variants as its slot count, so each
/// variant reads and writes its own slot and `get` never clamps one variant
/// onto another's.
pub proof fn lemma_slot_counts_match_variants()
    ensures
        ColorMode::variants().len() == N_COLOR_MODES,
        FolderColorMode::variants().len() == N_FOLDER_COLOR_MODES,
        HashTransformEffect::variants().len() == N_HASH_EFFECTS,
{
}

} // verus!
