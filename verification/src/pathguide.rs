//! Sizing of the path-guiding sparse voxel octree buffer.
use vstd::prelude::*;
use vstd::arithmetic::div_mod::lemma_fundamental_div_mod_converse;

verus! {

/// Bytes of one octree node: eight `u32` child links, an RGB radiance sum
/// and a `u32` sample count.
pub const SVO_NODE_SIZE: u64 = 48;

/// The octree buffer is never larger than 128 MiB.
pub const SVO_BUFFER_CAP: u64 = 134217728;

/// `floor(log2(r))` for `r >= 1` (0 for `r <= 1`).
pub open spec fn floor_log2(r: nat) -> nat
    decreases r,
{
    if r <= 1 {
        0
    } else {
        1 + floor_log2(r / 2)
    }
}

/// `2^d`.
pub open spec fn pow2_nat(d: nat) -> nat
    decreases d,
{
    if d == 0 {
        1
    } else {
        2 * pow2_nat((d - 1) as nat)
    }
}

/// `8^d`.
pub open spec fn pow8(d: nat) -> nat
    decreases d,
{
    if d == 0 {
        1
    } else {
        8 * pow8((d - 1) as nat)
    }
}

/// Octree depth for a grid of `resolution` cells per side:
/// `floor(log2(max(resolution, 1)))`.
pub open spec fn svo_depth_spec(resolution: nat) -> nat {
    floor_log2(if resolution == 0 {
        1
    } else {
        resolution
    })
}

/// Nodes of a full octree of the given depth, leaves excluded:
/// `8^0 + ... + 8^(depth-1) = (8^depth - 1) / 7`.
pub open spec fn svo_max_nodes(depth: nat) -> nat {
    ((pow8(depth) - 1) / 7) as nat
}

/// Bytes allocated for the octree of a grid of `resolution` cells per side:
/// one node record per node, capped at `SVO_BUFFER_CAP`.
pub open spec fn svo_buffer_size_spec(resolution: nat) -> nat {
    let size = svo_max_nodes(svo_depth_spec(resolution)) * (SVO_NODE_SIZE as nat);
    if size < SVO_BUFFER_CAP {
        size
    } else {
        SVO_BUFFER_CAP as nat
    }
}

proof fn lemma_log2_below(r: nat, k: nat)
    requires
        1 <= r < pow2_nat(k),
    ensures
        floor_log2(r) < k,
    decreases k,
{
    if k > 0 && r > 1 {
        lemma_log2_below(r / 2, (k - 1) as nat);
    }
}

proof fn lemma_pow8_monotone(a: nat, b: nat)
    requires
        a <= b,
    ensures
        1 <= pow8(a) <= pow8(b),
    decreases b,
{
    if b > a {
        lemma_pow8_monotone(a, (b - 1) as nat);
    } else if a > 0 {
        lemma_pow8_monotone((a - 1) as nat, (a - 1) as nat);
    }
}

/// Octree depth for a grid of `resolution` cells per side.
pub fn svo_depth(resolution: u32) -> (d: u32)
    ensures
        d == svo_depth_spec(resolution as nat),
        d < 32,
{
    let mut depth: u32 = 0;
    let mut r: u32 = if resolution == 0 {
        1
    } else {
        resolution
    };
    proof {
        reveal_with_fuel(pow2_nat, 33);
        assert(pow2_nat(32) == 0x1_0000_0000);
        lemma_log2_below(r as nat, 32);
    }
    while r > 1
        invariant
            1 <= r,
            depth + floor_log2(r as nat) == svo_depth_spec(resolution as nat),
            svo_depth_spec(resolution as nat) < 32,
        decreases r,
    {
        r = r / 2;
        depth = depth + 1;
    }
    depth
}

/// Bytes to allocate for the path-guiding octree of a grid of `resolution`
/// cells per side (the node count of the full octree above the leaves
/// times the node size, capped at 128 MiB). Resolutions from 2^21 on would
/// overflow the 64-bit node arithmetic and are left out.
pub fn svo_buffer_size(resolution: u32) -> (r: u64)
    requires
        resolution < 0x20_0000,
    ensures
        r == svo_buffer_size_spec(resolution as nat),
{
    let depth = svo_depth(resolution);
    proof {
        reveal_with_fuel(pow2_nat, 22);
        assert(pow2_nat(21) == 0x20_0000);
        if resolution > 0 {
            lemma_log2_below(resolution as nat, 21);
        }
        reveal_with_fuel(pow8, 21);
        assert(pow8(20) == 1152921504606846976);
    }
    let mut p: u64 = 1;
    let mut i: u32 = 0;
    while i < depth
        invariant
            i <= depth,
            depth <= 20,
            depth == svo_depth_spec(resolution as nat),
            p == pow8(i as nat),
            pow8(20) == 1152921504606846976,
        decreases depth - i,
    {
        proof {
            lemma_pow8_monotone((i + 1) as nat, 20);
        }
        p = p * 8;
        i = i + 1;
    }
    proof {
        lemma_pow8_monotone(depth as nat, 20);
    }
    let nodes = (p - 1) / 7;
    assert(nodes * 48 <= u64::MAX) by (nonlinear_arith)
        requires
            nodes == (p - 1) / 7,
            1 <= p <= 1152921504606846976,
    ;
    let size = nodes * SVO_NODE_SIZE;
    if size < SVO_BUFFER_CAP {
        size
    } else {
        SVO_BUFFER_CAP
    }
}


proof fn lemma_floor_log2_brackets(r: nat)
    requires
        r >= 1,
    ensures
        pow2_nat(floor_log2(r)) <= r < pow2_nat(floor_log2(r) + 1),
    decreases r,
{
    if r > 1 {
        lemma_floor_log2_brackets(r / 2);
        assert(pow2_nat(floor_log2(r) + 1) == 2 * pow2_nat(floor_log2(r)));
        assert(pow2_nat(floor_log2(r)) == 2 * pow2_nat(floor_log2(r / 2)));
    }
}

proof fn lemma_pow8_sum(d: nat)
    ensures
        pow8(d) >= 1,
        7 * ((pow8(d) - 1) / 7) + 1 == pow8(d),
    decreases d,
{
    if d > 0 {
        lemma_pow8_sum((d - 1) as nat);
        let k = (pow8((d - 1) as nat) - 1) / 7;
        assert(pow8(d) - 1 == 7 * (8 * k + 1));
        lemma_fundamental_div_mod_converse(pow8(d) - 1, 7, 8 * k + 1, 0);
    }
}

/// The octree depth is the largest `d` with `2^d` cells at most the
/// resolution (0 counted as 1); the node count `n` of depth `d` satisfies
/// `7 n + 1 = 8^d` (one node per cell of every level above the leaves) and
/// grows by `8^d` per level; the buffer holds all nodes unless that exceeds
/// the 128 MiB cap, which it never exceeds.
pub proof fn lemma_svo_sizes(resolution: nat)
    ensures
        pow2_nat(svo_depth_spec(resolution)) <= if resolution == 0 {
            1
        } else {
            resolution
        } < pow2_nat(svo_depth_spec(resolution) + 1),
        7 * svo_max_nodes(svo_depth_spec(resolution)) + 1 == pow8(svo_depth_spec(resolution)),
        svo_max_nodes(svo_depth_spec(resolution) + 1) == svo_max_nodes(svo_depth_spec(resolution))
            + pow8(svo_depth_spec(resolution)),
        svo_buffer_size_spec(resolution) <= SVO_BUFFER_CAP,
        svo_max_nodes(svo_depth_spec(resolution)) * 48 <= SVO_BUFFER_CAP
            ==> svo_buffer_size_spec(resolution) == svo_max_nodes(svo_depth_spec(resolution)) * 48,
        svo_max_nodes(svo_depth_spec(resolution)) * 48 > SVO_BUFFER_CAP
            ==> svo_buffer_size_spec(resolution) == SVO_BUFFER_CAP,
{
    let d = svo_depth_spec(resolution);
    lemma_floor_log2_brackets(if resolution == 0 {
        1
    } else {
        resolution
    });
    lemma_pow8_sum(d);
    lemma_pow8_sum(d + 1);
    assert(pow8(d + 1) == 8 * pow8(d));
}

} // verus!
