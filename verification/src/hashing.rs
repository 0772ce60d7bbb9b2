//! Deterministic integer hashes used to key per-cube state: string hashes for
//! names and path components, seed derivation, and object-id canonicalisation.
use vstd::prelude::*;
use vstd::wrapping::{u32_specs, u64_specs};
use vstd::string::StringSliceAdditionalSpecFns;
use vstd::arithmetic::div_mod::{
    lemma_add_mod_noop, lemma_fundamental_div_mod_converse, lemma_mod_twice, lemma_small_mod,
    lemma_mul_mod_noop_left,
};

verus! {

/// Polynomial (base 31) hash of a byte string, wrapping modulo 2^32.
pub open spec fn name_hash_spec(bytes: Seq<u8>) -> u32
    decreases bytes.len(),
{
    if bytes.len() == 0 {
        0
    } else {
        u32_specs::wrapping_add(
            u32_specs::wrapping_mul(name_hash_spec(bytes.drop_last()), 31),
            bytes.last() as u32,
        )
    }
}

/// Compute a deterministic hash from a string (for per-cube transforms).
pub fn name_hash(name: &str) -> (r: u32)
    ensures
        r == name_hash_spec(name.spec_bytes()),
{
    let bytes = name.as_bytes();
    let mut acc: u32 = 0;
    let mut i: usize = 0;
    assert(bytes@.take(0) =~= Seq::<u8>::empty());
    while i < bytes.len()
        invariant
            i <= bytes@.len(),
            acc == name_hash_spec(bytes@.take(i as int)),
        decreases bytes@.len() - i,
    {
        assert(bytes@.take(i + 1).drop_last() =~= bytes@.take(i as int));
        acc = acc.wrapping_mul(31).wrapping_add(bytes[i] as u32);
        i += 1;
    }
    assert(bytes@.take(bytes@.len() as int) =~= bytes@);
    acc
}

/// Secondary hash derived from `hash` and `salt`.
pub open spec fn hash_derive_spec(hash: u32, salt: u32) -> u32 {
    u32_specs::wrapping_mul(
        u32_specs::wrapping_add(u32_specs::wrapping_mul(hash, 1664525), salt),
        1013904223,
    )
}

/// Derive secondary hash without string allocation.
pub fn hash_derive(hash: u32, salt: u32) -> (r: u32)
    ensures
        r == hash_derive_spec(hash, salt),
{
    hash.wrapping_mul(1664525).wrapping_add(salt).wrapping_mul(1013904223)
}

/// FNV-1a offset basis.
pub open spec fn fnv_offset_basis() -> u32 {
    0x811c9dc5
}

/// 32-bit FNV-1a hash of a byte string.
pub open spec fn component_hash_spec(bytes: Seq<u8>) -> u32
    decreases bytes.len(),
{
    if bytes.len() == 0 {
        fnv_offset_basis()
    } else {
        u32_specs::wrapping_mul(
            component_hash_spec(bytes.drop_last()) ^ (bytes.last() as u32),
            0x01000193,
        )
    }
}

/// FNV-1a hash of one path component (small, deterministic, decent avalanche).
pub fn component_hash(s: &str) -> (r: u32)
    ensures
        r == component_hash_spec(s.spec_bytes()),
{
    let bytes = s.as_bytes();
    let mut h: u32 = 0x811c9dc5;
    let mut i: usize = 0;
    assert(bytes@.take(0) =~= Seq::<u8>::empty());
    while i < bytes.len()
        invariant
            i <= bytes@.len(),
            h == component_hash_spec(bytes@.take(i as int)),
        decreases bytes@.len() - i,
    {
        assert(bytes@.take(i + 1).drop_last() =~= bytes@.take(i as int));
        h = h ^ (bytes[i] as u32);
        h = h.wrapping_mul(0x01000193);
        i += 1;
    }
    assert(bytes@.take(bytes@.len() as int) =~= bytes@);
    h
}

/// One SplitMix64 finalisation of `cube_hash` salted with the channel index.
pub open spec fn channel_seed_spec(cube_hash: u64, channel: u64) -> u64 {
    let z0 = u64_specs::wrapping_mul(
        u64_specs::wrapping_add(cube_hash, u64_specs::wrapping_mul(channel, 0xD2B74407B1CE6E93)),
        0x9E3779B97F4A7C15,
    );
    let z1 = u64_specs::wrapping_mul(z0 ^ (z0 >> 30u64), 0xBF58476D1CE4E5B9);
    let z2 = u64_specs::wrapping_mul(z1 ^ (z1 >> 27u64), 0x94D049BB133111EB);
    z2 ^ (z2 >> 31u64)
}

/// Salt-mix the per-cube hash with the per-channel index so different
/// channels of the same cube get independent random offsets.
pub fn channel_seed(cube_hash: u64, channel: usize) -> (r: u64)
    ensures
        r == channel_seed_spec(cube_hash, channel as u64),
{
    let mut z = cube_hash.wrapping_add((channel as u64).wrapping_mul(0xD2B74407B1CE6E93)).wrapping_mul(
        0x9E3779B97F4A7C15,
    );
    z = (z ^ (z >> 30u64)).wrapping_mul(0xBF58476D1CE4E5B9);
    z = (z ^ (z >> 27u64)).wrapping_mul(0x94D049BB133111EB);
    z ^ (z >> 31u64)
}

/// Selected instances OR this bit into the object-id texture.
pub const OBJECT_ID_SELECTED_BIT: u32 = 0x8000_0000;

/// The id a raw texel value stands for once the selection bit is dropped.
pub open spec fn canonical_id(id: u32) -> u32 {
    (id % 0x8000_0000) as u32
}

/// Strip GPU-only bits so lookups match the ids that were allocated.
pub fn canonical_object_id(id: u32) -> (r: u32)
    ensures
        r == id & !OBJECT_ID_SELECTED_BIT,
        r == canonical_id(id),
{
    assert((id & !0x8000_0000u32) == id % 0x8000_0000) by (bit_vector);
    id & !OBJECT_ID_SELECTED_BIT
}

/// Canonicalising is idempotent and forgets exactly the selection bit: an id
/// and the same id with the selection bit set canonicalise alike, and ids
/// below the bit are their own canonical form.
pub proof fn lemma_canonical_object_id(id: u32)
    ensures
        (id & !OBJECT_ID_SELECTED_BIT) & !OBJECT_ID_SELECTED_BIT == id & !OBJECT_ID_SELECTED_BIT,
        (id | OBJECT_ID_SELECTED_BIT) & !OBJECT_ID_SELECTED_BIT == id & !OBJECT_ID_SELECTED_BIT,
        id < OBJECT_ID_SELECTED_BIT ==> id & !OBJECT_ID_SELECTED_BIT == id,
{
    assert((id & !0x8000_0000u32) & !0x8000_0000u32 == id & !0x8000_0000u32) by (bit_vector);
    assert((id | 0x8000_0000u32) & !0x8000_0000u32 == id & !0x8000_0000u32) by (bit_vector);
    assert(id < 0x8000_0000u32 ==> id & !0x8000_0000u32 == id) by (bit_vector);
}


/// `name_hash` is the base-31 polynomial over every byte, modulo 2^32: the
/// empty name hashes to 0, and appending a byte `b` to any name `s` gives
/// `hash(s) * 31 + b` (wrapping), whatever the length of `s`.
pub proof fn lemma_name_hash_appends(s: Seq<u8>, b: u8)
    ensures
        name_hash_spec(Seq::<u8>::empty()) == 0,
        name_hash_spec(s.push(b)) as int == (name_hash_spec(s) as int * 31 + b as int)
            % 0x1_0000_0000,
{
    let t = s.push(b);
    assert(t.drop_last() =~= s);
    assert(t.last() == b);
    let h = name_hash_spec(s) as int;
    let m = (h * 31) % 0x1_0000_0000;
    assert(u32_specs::wrapping_mul(name_hash_spec(s), 31) as int == m);
    lemma_add_mod_noop(h * 31, b as int, 0x1_0000_0000);
    lemma_mod_twice(h * 31, 0x1_0000_0000);
    lemma_small_mod(b as nat, 0x1_0000_0000);
    assert(0 <= m < 0x1_0000_0000);
    if m + b >= 0x1_0000_0000 {
        lemma_fundamental_div_mod_converse(m + b, 0x1_0000_0000, 1, m + b - 0x1_0000_0000);
    } else {
        lemma_small_mod((m + b) as nat, 0x1_0000_0000);
    }
}


/// `component_hash` is 32-bit FNV-1a over every byte: the empty component
/// hashes to the offset basis 2166136261, and appending a byte `b` to any
/// component `s` xors `b` into its hash and multiplies by the FNV prime
/// 16777619, modulo 2^32.
pub proof fn lemma_component_hash_appends(s: Seq<u8>, b: u8)
    ensures
        component_hash_spec(Seq::<u8>::empty()) == 2166136261,
        component_hash_spec(s.push(b)) as int == ((component_hash_spec(s) ^ (b as u32)) as int
            * 16777619) % 0x1_0000_0000,
{
    let t = s.push(b);
    assert(t.drop_last() =~= s);
    assert(t.last() == b);
}

/// `hash_derive(h, salt)` is `(h * 1664525 + salt) * 1013904223` modulo 2^32.
pub proof fn lemma_hash_derive_value(hash: u32, salt: u32)
    ensures
        hash_derive_spec(hash, salt) as int == ((hash as int * 1664525 + salt as int)
            * 1013904223) % 0x1_0000_0000,
{
    let m = (hash as int * 1664525) % 0x1_0000_0000;
    lemma_add_mod_noop(hash as int * 1664525, salt as int, 0x1_0000_0000);
    lemma_mod_twice(hash as int * 1664525, 0x1_0000_0000);
    lemma_small_mod(salt as nat, 0x1_0000_0000);
    let a = u32_specs::wrapping_add(u32_specs::wrapping_mul(hash, 1664525), salt) as int;
    if m + salt >= 0x1_0000_0000 {
        lemma_fundamental_div_mod_converse(m + salt, 0x1_0000_0000, 1, m + salt - 0x1_0000_0000);
    } else {
        lemma_small_mod((m + salt) as nat, 0x1_0000_0000);
    }
    assert(a == (hash as int * 1664525 + salt as int) % 0x1_0000_0000);
    lemma_mul_mod_noop_left(hash as int * 1664525 + salt as int, 1013904223, 0x1_0000_0000);
}

} // verus!
