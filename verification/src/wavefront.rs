//! CPU-side bookkeeping of the wavefront path tracer: the per-tile uniform
//! record, the per-tile slot layout, and how the tile-slot capacity grows.
use vstd::prelude::*;

use crate::layout::{is_pow2, next_power_of_two};
use vstd::arithmetic::div_mod::{lemma_fundamental_div_mod, lemma_fundamental_div_mod_converse};
use vstd::arithmetic::power2::{lemma2_to64, lemma_pow2_unfold, pow2};

verus! {

/// Per-tile slot stride (bytes) for dynamic-offset bind groups: the WebGPU
/// minimum dynamic offset alignment.
pub const TILE_SLOT_STRIDE: u64 = 256;

/// Bytes of a tile slot that hold the `WfDims` record (eight `u32`s).
pub const WF_DIMS_SIZE: u64 = 32;

/// Bytes of a tile slot that hold the `[count_in, count_out, _, _]` block.
pub const WF_COUNTS_SIZE: u64 = 16;

/// Initial tile-slot capacity.
pub const DEFAULT_TILE_CAPACITY: u32 = 64;

/// Dims uniform for the ray-generation pass, one per tile.
#[derive(Debug, Clone, Copy)]
pub struct WfDims {
    pub full_width: u32,
    pub full_height: u32,
    pub tile_width: u32,
    pub tile_height: u32,
    pub tile_x: u32,
    pub tile_y: u32,
    pub _pad: [u32; 2],
}

/// Wavefront pass configuration.
#[derive(Debug, Clone, PartialEq, Eq, Structural)]
pub struct WavefrontConfig {
    /// Enable wavefront path tracing (instead of the megakernel).
    pub enabled: bool,
    /// Tile size for wavefront rendering (0 = disabled).
    pub tile_size: u32,
}

impl Default for WavefrontConfig {
    fn default() -> (r: Self)
        ensures
            r == (WavefrontConfig { enabled: false, tile_size: 0 }),
    {
        WavefrontConfig { enabled: false, tile_size: 0 }
    }
}

/// Dynamic offset (bytes) of tile `idx` in the per-tile dims / counts buffers.
pub fn tile_offset(idx: u32) -> (r: u32)
    requires
        idx * 256 <= u32::MAX,
    ensures
        r == idx * 256,
{
    idx * (TILE_SLOT_STRIDE as u32)
}

/// Smallest power of two that is at least `n`.
pub open spec fn least_pow2_at_least(n: nat, p: nat) -> bool {
    &&& is_pow2(p)
    &&& p >= n
    &&& (p == 1 || p / 2 < n)
}

/// `r` is the capacity change for a frame of `n` tiles when `current` slots
/// exist: none when they suffice (or there are no tiles), otherwise the
/// next power of two at or above `n`, but never below the default capacity.
pub open spec fn capacity_growth(current: u32, n: u32, r: Option<u32>) -> bool {
    &&& (n == 0 || n <= current) ==> r is None
    &&& (n > 0 && n > current) ==> (r matches Some(c) && exists|p: u32|
        #[trigger] least_pow2_at_least(n as nat, p as nat) && c == if p >= DEFAULT_TILE_CAPACITY {
            p
        } else {
            DEFAULT_TILE_CAPACITY
        })
}

/// New tile-slot capacity for a frame with `n` tiles, if it must grow.
pub fn grown_tile_capacity(current: u32, n: u32) -> (r: Option<u32>)
    requires
        n <= 0x8000_0000,
    ensures
        capacity_growth(current, n, r),
{
    if n == 0 || n <= current {
        return None;
    }
    let p = next_power_of_two(n);
    assert(least_pow2_at_least(n as nat, p as nat));
    Some(
        if p >= DEFAULT_TILE_CAPACITY {
            p
        } else {
            DEFAULT_TILE_CAPACITY
        },
    )
}

/// Byte `k` of the slot blob built from `records` (records of `record_len`
/// bytes): slot `k / 256` holds record `k / 256` at its start and zeros after.
pub open spec fn slot_byte(records: Seq<u8>, record_len: int, k: int) -> u8 {
    let slot = k / (TILE_SLOT_STRIDE as int);
    let offset = k % (TILE_SLOT_STRIDE as int);
    if offset < record_len {
        records[slot * record_len + offset]
    } else {
        0
    }
}

/// Lay records of `record_len` bytes out in slots of `TILE_SLOT_STRIDE`
/// bytes, one record at the start of each slot, the rest zero.
pub fn pack_tile_slots(records: &[u8], record_len: usize) -> (r: Vec<u8>)
    requires
        1 <= record_len <= TILE_SLOT_STRIDE,
        (records@.len() as int) % (record_len as int) == 0,
        ((records@.len() as int) / (record_len as int)) * (TILE_SLOT_STRIDE as int) <= usize::MAX,
    ensures
        r@.len() == ((records@.len() as int) / (record_len as int)) * (TILE_SLOT_STRIDE as int),
        forall|k: int| 0 <= k < r@.len() ==> #[trigger] r@[k] == slot_byte(records@, record_len as int, k),
{
    let len = records.len();
    let n = len / record_len;
    let ghost total = ((records@.len() as int) / (record_len as int)) * 256;
    proof {
        lemma_fundamental_div_mod(records@.len() as int, record_len as int);
        assert(records@.len() == n * record_len) by (nonlinear_arith)
            requires
                records@.len() == record_len * ((records@.len() as int) / (record_len as int)) + (records@.len() as int) % (record_len as int),
                (records@.len() as int) % (record_len as int) == 0,
                n == (records@.len() as int) / (record_len as int),
        ;
    }
    let mut out: Vec<u8> = Vec::new();
    let mut i: usize = 0;
    while i < n
        invariant
            1 <= record_len <= 256,
            n == (records@.len() as int) / (record_len as int),
            records@.len() == n * record_len,
            records@.len() == len,
            total == n * 256,
            total <= usize::MAX,
            i <= n,
            out@.len() == i * 256,
            forall|k: int| 0 <= k < out@.len() ==> #[trigger] out@[k] == slot_byte(records@, record_len as int, k),
        decreases n - i,
    {
        let mut j: usize = 0;
        proof {
            assert(i * 256 + 256 <= total) by (nonlinear_arith)
                requires
                    i < n,
                    total == n * 256,
            ;
        }
        while j < 256
            invariant
                1 <= record_len <= 256,
                n == (records@.len() as int) / (record_len as int),
                records@.len() == n * record_len,
                records@.len() == len,
                total == n * 256,
                total <= usize::MAX,
                i < n,
                i * 256 + 256 <= total,
                j <= 256,
                out@.len() == i * 256 + j,
                forall|k: int| 0 <= k < out@.len() ==> #[trigger] out@[k] == slot_byte(records@, record_len as int, k),
            decreases 256 - j,
        {
            let b = if j < record_len {
                proof {
                    assert(0 <= i * record_len && i * record_len + j < n * record_len) by (nonlinear_arith)
                        requires
                            i < n,
                            j < record_len,
                    ;
                }
                records[i * record_len + j]
            } else {
                0
            };
            proof {
                lemma_fundamental_div_mod_converse(i * 256 + j, 256, i as int, j as int);
            }
            out.push(b);
            j = j + 1;
        }
        i = i + 1;
    }
    out
}

/// Per-frame upload of the tile records: the capacity change, if any, and
/// the slot blobs for the dims buffer and the count-init buffer.
#[derive(Debug, Clone)]
pub struct TileUpload {
    /// New tile-slot capacity; the per-tile buffers must be recreated.
    pub new_capacity: Option<u32>,
    /// One `WfDims` record per slot.
    pub dims_blob: Vec<u8>,
    /// One `[count_in, count_out, _, _]` record per slot.
    pub counts_blob: Vec<u8>,
}

/// Prepare one frame's tile upload from the raw bytes of its `WfDims`
/// records (`WF_DIMS_SIZE` bytes each) and of as many count-init records
/// (`WF_COUNTS_SIZE` bytes each); `capacity` is the current slot count.
/// `None` when there are no tiles (nothing is uploaded).
pub fn prepare_tile_upload(capacity: u32, dims_bytes: &[u8], count_bytes: &[u8]) -> (r: Option<
    TileUpload,
>)
    requires
        dims_bytes@.len() % 32 == 0,
        count_bytes@.len() == (dims_bytes@.len() / 32) * 16,
        dims_bytes@.len() / 32 <= 0x8000_0000,
        (dims_bytes@.len() / 32) * 256 <= usize::MAX,
    ensures
        r is None <==> dims_bytes@.len() == 0,
        r matches Some(u) ==> {
            let n = dims_bytes@.len() / 32;
            &&& capacity_growth(capacity, n as u32, u.new_capacity)
            &&& u.dims_blob@.len() == n * 256
            &&& u.counts_blob@.len() == n * 256
            &&& forall|k: int|
                0 <= k < n * 256 ==> #[trigger] u.dims_blob@[k] == slot_byte(dims_bytes@, 32, k)
                    && u.counts_blob@[k] == slot_byte(count_bytes@, 16, k)
        },
{
    let n = dims_bytes.len() / 32;
    if n == 0 {
        return None;
    }
    let new_capacity = grown_tile_capacity(capacity, n as u32);
    let dims_blob = pack_tile_slots(dims_bytes, 32);
    let counts_blob = pack_tile_slots(count_bytes, 16);
    assert((count_bytes@.len() as int) / 16 == n);
    Some(TileUpload { new_capacity, dims_blob, counts_blob })
}

/// Ping-pong index of the other ray buffer.
pub fn swap_buffer_index(cur_buf: u32) -> (r: u32)
    requires
        cur_buf <= 1,
    ensures
        r == 1 - cur_buf,
{
    1 - cur_buf
}

/// Tile capacity requested of the wavefront ray buffers for one frame.
#[derive(Debug, Clone, Copy, PartialEq, Eq, Structural)]
pub struct TileCapacity {
    /// Frame width in pixels (at least 1).
    pub full_width: u32,
    /// Frame height in pixels (at least 1).
    pub full_height: u32,
    /// The frame is rendered in several tiles.
    pub use_tiling: bool,
    /// Requested ray-buffer width.
    pub width: u32,
    /// Requested ray-buffer height.
    pub height: u32,
}

/// `v`, but never 0.
pub open spec fn at_least_one(v: u32) -> u32 {
    if v == 0 {
        1
    } else {
        v
    }
}

/// The smaller of two values.
pub open spec fn min_u32(a: u32, b: u32) -> u32 {
    if a < b {
        a
    } else {
        b
    }
}

/// Capacity for a `width` x `height` frame with tile size `tile_size`
/// (0 = never tile): tiling is used when a tile size is set and the frame
/// exceeds it in either direction, and a tile is then at most `tile_size`
/// on each side; otherwise the buffers cover the whole frame.
pub open spec fn tile_capacity_for(width: u32, height: u32, tile_size: u32) -> TileCapacity {
    let fw = at_least_one(width);
    let fh = at_least_one(height);
    let tiling = tile_size > 0 && (fw > tile_size || fh > tile_size);
    TileCapacity {
        full_width: fw,
        full_height: fh,
        use_tiling: tiling,
        width: if tiling {
            at_least_one(min_u32(tile_size, fw))
        } else {
            fw
        },
        height: if tiling {
            at_least_one(min_u32(tile_size, fh))
        } else {
            fh
        },
    }
}

/// Decide how large the wavefront ray buffers must be for a frame.
pub fn plan_tile_capacity(width: u32, height: u32, tile_size: u32) -> (r: TileCapacity)
    ensures
        r == tile_capacity_for(width, height, tile_size),
{
    let fw = if width == 0 {
        1
    } else {
        width
    };
    let fh = if height == 0 {
        1
    } else {
        height
    };
    let tiling = tile_size > 0 && (fw > tile_size || fh > tile_size);
    let cw = if tiling {
        let m = if tile_size < fw {
            tile_size
        } else {
            fw
        };
        if m == 0 {
            1
        } else {
            m
        }
    } else {
        fw
    };
    let ch = if tiling {
        let m = if tile_size < fh {
            tile_size
        } else {
            fh
        };
        if m == 0 {
            1
        } else {
            m
        }
    } else {
        fh
    };
    TileCapacity { full_width: fw, full_height: fh, use_tiling: tiling, width: cw, height: ch }
}

/// Tiling is in force when the capacity asks for it, or when the ray
/// buffers (`wf_w` x `wf_h`, possibly clamped by the device) came out
/// smaller than requested: rendering the frame in one piece would then
/// overrun them.
pub open spec fn tiling_in_force(cap: TileCapacity, wf_w: u32, wf_h: u32) -> bool {
    cap.use_tiling || wf_w < cap.width || wf_h < cap.height
}

/// Distance between consecutive tile origins along one axis.
pub open spec fn tile_step(tiling: bool, full: u32, wf: u32, cap: u32) -> u32 {
    if tiling {
        min_u32(wf, cap)
    } else {
        full
    }
}

/// `a / b` rounded up.
pub open spec fn ceil_div(a: int, b: int) -> int {
    (a + b - 1) / b
}

/// Horizontal tile step of a plan.
pub open spec fn plan_step_x(cap: TileCapacity, wf_w: u32, wf_h: u32) -> int {
    tile_step(tiling_in_force(cap, wf_w, wf_h), cap.full_width, wf_w, cap.width) as int
}

/// Vertical tile step of a plan.
pub open spec fn plan_step_y(cap: TileCapacity, wf_w: u32, wf_h: u32) -> int {
    tile_step(tiling_in_force(cap, wf_w, wf_h), cap.full_height, wf_h, cap.height) as int
}

/// Number of tile columns of a plan.
pub open spec fn plan_columns(cap: TileCapacity, wf_w: u32, wf_h: u32) -> int {
    ceil_div(cap.full_width as int, plan_step_x(cap, wf_w, wf_h))
}

/// Number of tile rows of a plan.
pub open spec fn plan_rows(cap: TileCapacity, wf_w: u32, wf_h: u32) -> int {
    ceil_div(cap.full_height as int, plan_step_y(cap, wf_w, wf_h))
}

/// Extent of a tile that starts at `start` on an axis of length `full`,
/// limited by the ray-buffer extent `wf`.
pub open spec fn tile_extent(full: int, start: int, wf: int) -> int {
    if full - start < wf {
        full - start
    } else {
        wf
    }
}

/// The tile in row `row` and column `col` of a plan: it starts at
/// `(col * step_x, row * step_y)` and extends to the frame edge or the
/// ray-buffer extent, whichever is nearer.
pub open spec fn tile_at(cap: TileCapacity, wf_w: u32, wf_h: u32, row: int, col: int) -> WfDims {
    let x = col * plan_step_x(cap, wf_w, wf_h);
    let y = row * plan_step_y(cap, wf_w, wf_h);
    WfDims {
        full_width: cap.full_width,
        full_height: cap.full_height,
        tile_width: tile_extent(cap.full_width as int, x, wf_w as int) as u32,
        tile_height: tile_extent(cap.full_height as int, y, wf_h as int) as u32,
        tile_x: x as u32,
        tile_y: y as u32,
        _pad: [0, 0],
    }
}

/// The tiles of one frame, in the order their passes are recorded.
#[derive(Debug, Clone)]
pub struct TilePlan {
    /// Tiling is in force (features that need the whole frame at once are
    /// then switched off).
    pub use_tiling: bool,
    /// Row-major list of tiles.
    pub tiles: Vec<WfDims>,
}

proof fn lemma_ceil_div_step(full: int, s: int, c: int)
    requires
        s >= 1,
        0 <= c,
        c * s < full,
    ensures
        c < ceil_div(full, s),
        (full - c * s <= s) <==> (c + 1 == ceil_div(full, s)),
{
    let q = ceil_div(full, s);
    lemma_fundamental_div_mod(full + s - 1, s);
    let rem = (full + s - 1) % s;
    assert(0 <= rem < s);
    assert(full + s - 1 == s * q + rem);
    assert(c < q) by (nonlinear_arith)
        requires
            c * s < full,
            full + s - 1 == s * q + rem,
            rem < s,
            s >= 1,
    ;
    if full - c * s <= s {
        assert(full + s - 1 == (c + 1) * s + (full - 1 - c * s)) by (nonlinear_arith);
        lemma_fundamental_div_mod_converse(full + s - 1, s, c + 1, full - 1 - c * s);
    } else {
        assert(q > c + 1) by (nonlinear_arith)
            requires
                full - c * s > s,
                full + s - 1 == s * q + rem,
                0 <= rem < s,
                s >= 1,
        ;
    }
}

/// Cut a frame into tiles. `cap` is the capacity that was requested and
/// `wf_w` x `wf_h` the extent the ray buffers actually got. Without tiling
/// the plan is one tile at the origin; with tiling the frame is walked in
/// row-major order with steps of the buffer extent (never more than the
/// capacity), each tile ending at the frame edge or the buffer extent.
pub fn plan_tiles(cap: TileCapacity, wf_w: u32, wf_h: u32) -> (r: TilePlan)
    requires
        cap.full_width >= 1,
        cap.full_height >= 1,
        cap.width >= 1,
        cap.height >= 1,
        wf_w >= 1,
        wf_h >= 1,
    ensures
        r.use_tiling == tiling_in_force(cap, wf_w, wf_h),
        r.tiles@.len() == plan_rows(cap, wf_w, wf_h) * plan_columns(cap, wf_w, wf_h),
        forall|k: int|
            0 <= k < r.tiles@.len() ==> #[trigger] r.tiles@[k] == tile_at(
                cap,
                wf_w,
                wf_h,
                k / plan_columns(cap, wf_w, wf_h),
                k % plan_columns(cap, wf_w, wf_h),
            ),
{
    let tiling = cap.use_tiling || wf_w < cap.width || wf_h < cap.height;
    let full_w = cap.full_width;
    let full_h = cap.full_height;
    let step_x = if tiling {
        if wf_w < cap.width {
            wf_w
        } else {
            cap.width
        }
    } else {
        full_w
    };
    let step_y = if tiling {
        if wf_h < cap.height {
            wf_h
        } else {
            cap.height
        }
    } else {
        full_h
    };
    let ghost cols = plan_columns(cap, wf_w, wf_h);
    let ghost rows = plan_rows(cap, wf_w, wf_h);
    assert(step_x == plan_step_x(cap, wf_w, wf_h) && step_y == plan_step_y(cap, wf_w, wf_h));
    proof {
        lemma_ceil_div_step(full_w as int, step_x as int, 0);
        lemma_ceil_div_step(full_h as int, step_y as int, 0);
    }
    let mut tiles: Vec<WfDims> = Vec::new();
    let mut y: u32 = 0;
    let ghost mut row: int = 0;
    loop
        invariant_except_break
            tiles@.len() == row * cols,
        invariant
            1 <= step_x,
            1 <= step_y,
            full_w == cap.full_width,
            full_h == cap.full_height,
            step_x == plan_step_x(cap, wf_w, wf_h),
            step_y == plan_step_y(cap, wf_w, wf_h),
            cols == plan_columns(cap, wf_w, wf_h),
            rows == plan_rows(cap, wf_w, wf_h),
            1 <= cols,
            1 <= full_w,
            0 <= row < rows,
            y == row * step_y,
            y < full_h,
            forall|k: int|
                0 <= k < tiles@.len() ==> #[trigger] tiles@[k] == tile_at(
                    cap,
                    wf_w,
                    wf_h,
                    k / cols,
                    k % cols,
                ),
        ensures
            tiles@.len() == rows * cols,
            forall|k: int|
                0 <= k < tiles@.len() ==> #[trigger] tiles@[k] == tile_at(
                    cap,
                    wf_w,
                    wf_h,
                    k / cols,
                    k % cols,
                ),
        decreases full_h - y,
    {
        let tile_h = if full_h - y < wf_h {
            full_h - y
        } else {
            wf_h
        };
        let mut x: u32 = 0;
        let ghost mut col: int = 0;
        loop
            invariant_except_break
                tiles@.len() == row * cols + col,
            invariant
                1 <= step_x,
                1 <= step_y,
                full_w == cap.full_width,
                full_h == cap.full_height,
                step_x == plan_step_x(cap, wf_w, wf_h),
                step_y == plan_step_y(cap, wf_w, wf_h),
                cols == plan_columns(cap, wf_w, wf_h),
                rows == plan_rows(cap, wf_w, wf_h),
                0 <= row < rows,
                y == row * step_y,
                y < full_h,
                tile_h == tile_extent(full_h as int, y as int, wf_h as int),
                1 <= full_w,
                0 <= col < cols,
                x == col * step_x,
                x < full_w,
                forall|k: int|
                    0 <= k < tiles@.len() ==> #[trigger] tiles@[k] == tile_at(
                        cap,
                        wf_w,
                        wf_h,
                        k / cols,
                        k % cols,
                    ),
            ensures
                tiles@.len() == row * cols + cols,
                forall|k: int|
                    0 <= k < tiles@.len() ==> #[trigger] tiles@[k] == tile_at(
                        cap,
                        wf_w,
                        wf_h,
                        k / cols,
                        k % cols,
                    ),
            decreases full_w - x,
        {
            let tile_w = if full_w - x < wf_w {
                full_w - x
            } else {
                wf_w
            };
            let d = WfDims {
                full_width: full_w,
                full_height: full_h,
                tile_width: tile_w,
                tile_height: tile_h,
                tile_x: x,
                tile_y: y,
                _pad: [0, 0],
            };
            proof {
                lemma_fundamental_div_mod_converse(row * cols + col, cols, row, col);
                assert(d == tile_at(cap, wf_w, wf_h, row, col));
            }
            let ghost before = tiles@;
            tiles.push(d);
            proof {
                lemma_ceil_div_step(full_w as int, step_x as int, col);
                assert forall|k: int| 0 <= k < tiles@.len() implies #[trigger] tiles@[k] == tile_at(
                    cap,
                    wf_w,
                    wf_h,
                    k / cols,
                    k % cols,
                ) by {
                    if k < before.len() {
                        assert(tiles@[k] == before[k]);
                    } else {
                        assert(k == row * cols + col);
                    }
                }
            }
            if full_w - x <= step_x {
                break ;
            }
            proof {
                assert((col + 1) * step_x == col * step_x + step_x) by (nonlinear_arith);
            }
            x = x + step_x;
            proof {
                col = col + 1;
            }
        }
        proof {
            lemma_ceil_div_step(full_h as int, step_y as int, row);
            assert(row * cols + cols == (row + 1) * cols) by (nonlinear_arith);
        }
        if full_h - y <= step_y {
            break ;
        }
        proof {
            assert((row + 1) * step_y == row * step_y + step_y) by (nonlinear_arith);
        }
        y = y + step_y;
        proof {
            row = row + 1;
        }
    }
    TilePlan { use_tiling: tiling, tiles }
}

/// Optional passes of one wavefront frame.
#[derive(Debug, Clone, Copy, PartialEq, Eq, Structural)]
pub struct WavefrontPasses {
    /// ReSTIR direct/global illumination replaces the bounce loop.
    pub restir: bool,
    /// Path guiding samples and updates its spatial cache.
    pub path_guide: bool,
    /// Adaptive sampling re-estimates variance and per-pixel budgets.
    pub adaptive: bool,
    /// Shade-pass flag: guided directions are used (0 or 1).
    pub guide_enabled: u32,
    /// Shade-pass flag: guided product sampling is used (0 or 1).
    pub guide_product: u32,
}

/// Decide the optional passes of a frame. `restir_requested` is set when
/// ReSTIR DI or GI is switched on, `restir_ready` when its pipelines and
/// bindings exist. Tiling switches every pass off that needs the whole
/// frame at once.
pub fn wavefront_passes(
    use_tiling: bool,
    restir_requested: bool,
    restir_ready: bool,
    path_guide: bool,
    product_sampling: bool,
    adaptive: bool,
) -> (r: WavefrontPasses)
    ensures
        r == (WavefrontPasses {
            restir: !use_tiling && restir_requested && restir_ready,
            path_guide: !use_tiling && path_guide,
            adaptive: !use_tiling && adaptive,
            guide_enabled: if !use_tiling && path_guide {
                1
            } else {
                0
            },
            guide_product: if !use_tiling && product_sampling {
                1
            } else {
                0
            },
        }),
{
    WavefrontPasses {
        restir: !use_tiling && restir_requested && restir_ready,
        path_guide: !use_tiling && path_guide,
        adaptive: !use_tiling && adaptive,
        guide_enabled: if !use_tiling && path_guide {
            1
        } else {
            0
        },
        guide_product: if !use_tiling && product_sampling {
            1
        } else {
            0
        },
    }
}

/// The passes recorded for one tile.
#[derive(Debug, Clone, Copy, PartialEq, Eq, Structural)]
pub struct TileSchedule {
    /// Sample guided directions before ray generation.
    pub guide_sample: bool,
    /// Run the ReSTIR chain (intersect, G-buffer, initial, ..., shade).
    pub restir: bool,
    /// ReSTIR temporal reuse.
    pub restir_temporal: bool,
    /// ReSTIR spatial reuse.
    pub restir_spatial: bool,
    /// Copy the current reservoirs to the previous ones afterwards.
    pub restir_keep_history: bool,
    /// Intersect/shade iterations of the bounce loop.
    pub bounces: u32,
    /// Update the path-guiding cache after the bounce loop.
    pub guide_update: bool,
}

/// Passes of one tile of frame `frame` (1-based). With ReSTIR the bounce
/// loop is replaced by the ReSTIR chain; temporal reuse needs a previous
/// frame; without spatial reuse the temporal history is kept by a copy.
pub fn tile_schedule(
    passes: WavefrontPasses,
    temporal: bool,
    spatial: bool,
    frame: u32,
    max_bounces: u32,
) -> (r: TileSchedule)
    ensures
        r == (TileSchedule {
            guide_sample: passes.path_guide && !passes.restir,
            restir: passes.restir,
            restir_temporal: passes.restir && temporal && frame > 1,
            restir_spatial: passes.restir && spatial,
            restir_keep_history: passes.restir && temporal && !spatial,
            bounces: if passes.restir {
                0
            } else {
                max_bounces
            },
            guide_update: !passes.restir && passes.path_guide,
        }),
{
    TileSchedule {
        guide_sample: passes.path_guide && !passes.restir,
        restir: passes.restir,
        restir_temporal: passes.restir && temporal && frame > 1,
        restir_spatial: passes.restir && spatial,
        restir_keep_history: passes.restir && temporal && !spatial,
        bounces: if passes.restir {
            0
        } else {
            max_bounces
        },
        guide_update: !passes.restir && passes.path_guide,
    }
}

/// Adaptive sampling re-estimates variance on every `interval`-th frame
/// (`interval` 0 only on frame 0).
pub fn adaptive_update_due(frame: u32, interval: u32) -> (r: bool)
    ensures
        r == if interval == 0 {
            frame == 0
        } else {
            frame % interval == 0
        },
{
    if interval == 0 {
        frame == 0
    } else {
        frame % interval == 0
    }
}

/// Workgroups of 8 x 8 threads covering a `w` x `h` grid.
pub fn workgroups_8x8(w: u32, h: u32) -> (r: (u32, u32))
    ensures
        r.0 == ceil_div(w as int, 8),
        r.1 == ceil_div(h as int, 8),
{
    let gx = w / 8 + if w % 8 == 0 {
        0
    } else {
        1
    };
    let gy = h / 8 + if h % 8 == 0 {
        0
    } else {
        1
    };
    (gx, gy)
}

/// Workgroups of 64 threads covering `n` items.
pub fn workgroups_64(n: u32) -> (r: u32)
    ensures
        r == ceil_div(n as int, 64),
{
    n / 64 + if n % 64 == 0 {
        0
    } else {
        1
    }
}

/// Pixel `(px, py)` lies inside tile `t`.
pub open spec fn tile_contains(t: WfDims, px: int, py: int) -> bool {
    &&& t.tile_x <= px < t.tile_x + t.tile_width
    &&& t.tile_y <= py < t.tile_y + t.tile_height
}

proof fn lemma_below_ceil_div(full: int, s: int, c: int)
    requires
        s >= 1,
        full >= 1,
        0 <= c < ceil_div(full, s),
    ensures
        c * s < full,
{
    let q = ceil_div(full, s);
    lemma_fundamental_div_mod(full + s - 1, s);
    let rem = (full + s - 1) % s;
    assert(c * s < full) by (nonlinear_arith)
        requires
            full + s - 1 == s * q + rem,
            0 <= rem,
            0 <= c < q,
            s >= 1,
    ;
}

proof fn lemma_axis_cover(full: int, s: int, c: int, p: int)
    requires
        1 <= s,
        0 <= c,
        c * s < full,
        0 <= p < full,
    ensures
        (c * s <= p < c * s + tile_extent(full, c * s, s)) <==> c == p / s,
{
    lemma_fundamental_div_mod(p, s);
    if c == p / s {
        assert(c * s == s * (p / s)) by (nonlinear_arith)
            requires
                c == p / s,
        ;
    }
    if c * s <= p && p < c * s + tile_extent(full, c * s, s) {
        lemma_fundamental_div_mod_converse(p, s, c, p - c * s);
    }
}

/// Every pixel of the frame lies in exactly one tile of the plan, the one
/// whose row and column are the pixel's coordinates divided by the tile
/// steps; and every tile is non-empty and inside the frame. This holds for
/// any tile size and any ray-buffer extent from 1 up to the requested
/// capacity.
pub proof fn lemma_tiles_partition_frame(
    width: u32,
    height: u32,
    tile_size: u32,
    wf_w: u32,
    wf_h: u32,
    px: int,
    py: int,
)
    requires
        1 <= wf_w <= tile_capacity_for(width, height, tile_size).width,
        1 <= wf_h <= tile_capacity_for(width, height, tile_size).height,
        0 <= px < tile_capacity_for(width, height, tile_size).full_width,
        0 <= py < tile_capacity_for(width, height, tile_size).full_height,
    ensures
        ({
            let cap = tile_capacity_for(width, height, tile_size);
            let cols = plan_columns(cap, wf_w, wf_h);
            let rows = plan_rows(cap, wf_w, wf_h);
            let home = (py / plan_step_y(cap, wf_w, wf_h)) * cols + px / plan_step_x(
                cap,
                wf_w,
                wf_h,
            );
            &&& 0 <= home < rows * cols
            &&& forall|k: int|
                0 <= k < rows * cols ==> {
                    let t = #[trigger] tile_at(cap, wf_w, wf_h, k / cols, k % cols);
                    &&& (tile_contains(t, px, py) <==> k == home)
                    &&& 1 <= t.tile_width
                    &&& t.tile_x + t.tile_width <= cap.full_width
                    &&& 1 <= t.tile_height
                    &&& t.tile_y + t.tile_height <= cap.full_height
                }
        }),
{
    let cap = tile_capacity_for(width, height, tile_size);
    let sx = plan_step_x(cap, wf_w, wf_h);
    let sy = plan_step_y(cap, wf_w, wf_h);
    let fw = cap.full_width as int;
    let fh = cap.full_height as int;
    let cols = plan_columns(cap, wf_w, wf_h);
    let rows = plan_rows(cap, wf_w, wf_h);
    assert(1 <= sx && 1 <= sy);
    lemma_ceil_div_step(fw, sx, 0);
    lemma_ceil_div_step(fh, sy, 0);
    let cx = px / sx;
    let cy = py / sy;
    lemma_fundamental_div_mod(px, sx);
    lemma_fundamental_div_mod(py, sy);
    assert(cx * sx <= px && cy * sy <= py) by (nonlinear_arith)
        requires
            px == sx * cx + px % sx,
            py == sy * cy + py % sy,
            0 <= px % sx,
            0 <= py % sy,
    ;
    assert(0 <= cx && 0 <= cy) by (nonlinear_arith)
        requires
            cx == px / sx,
            cy == py / sy,
            0 <= px,
            0 <= py,
            sx >= 1,
            sy >= 1,
    ;
    lemma_ceil_div_step(fw, sx, cx);
    lemma_ceil_div_step(fh, sy, cy);
    let home = cy * cols + cx;
    assert(home < rows * cols) by (nonlinear_arith)
        requires
            home == cy * cols + cx,
            0 <= cx < cols,
            0 <= cy < rows,
    ;
    assert(0 <= home) by (nonlinear_arith)
        requires
            home == cy * cols + cx,
            0 <= cx,
            0 <= cy,
            cols >= 1,
    ;
    assert forall|k: int| 0 <= k < rows * cols implies {
        let t = #[trigger] tile_at(cap, wf_w, wf_h, k / cols, k % cols);
        &&& (tile_contains(t, px, py) <==> k == home)
        &&& 1 <= t.tile_width
        &&& t.tile_x + t.tile_width <= cap.full_width
        &&& 1 <= t.tile_height
        &&& t.tile_y + t.tile_height <= cap.full_height
    } by {
        let r = k / cols;
        let c = k % cols;
        lemma_fundamental_div_mod(k, cols);
        assert(0 <= c < cols);
        assert(0 <= r < rows) by (nonlinear_arith)
            requires
                k == cols * r + c,
                0 <= c < cols,
                0 <= k < rows * cols,
        ;
        lemma_below_ceil_div(fw, sx, c);
        lemma_below_ceil_div(fh, sy, r);
        assert(0 <= c * sx && 0 <= r * sy) by (nonlinear_arith)
            requires
                0 <= c,
                0 <= r,
                sx >= 1,
                sy >= 1,
        ;
        // Without tiling there is a single tile and the buffers cover the frame.
        assert(tile_extent(fw, c * sx, wf_w as int) == tile_extent(fw, c * sx, sx));
        assert(tile_extent(fh, r * sy, wf_h as int) == tile_extent(fh, r * sy, sy));
        lemma_axis_cover(fw, sx, c, px);
        lemma_axis_cover(fh, sy, r, py);
        if k == home {
            lemma_fundamental_div_mod_converse(k, cols, cy, cx);
        }
        assert(cols * r == r * cols) by (nonlinear_arith);
    }
}


/// With a non-zero tile size the requested ray buffers never exceed it on
/// either axis; tiling is in force exactly when the buffers do not cover
/// the whole frame; a tile size of 0 never tiles; and the frame extent is
/// the requested one with 0 counted as 1.
pub proof fn lemma_tile_capacity_bounds(width: u32, height: u32, tile_size: u32)
    ensures
        tile_size > 0 ==> tile_capacity_for(width, height, tile_size).width <= tile_size
            && tile_capacity_for(width, height, tile_size).height <= tile_size,
        tile_capacity_for(width, height, tile_size).use_tiling <==> (tile_capacity_for(
            width,
            height,
            tile_size,
        ).width < tile_capacity_for(width, height, tile_size).full_width || tile_capacity_for(
            width,
            height,
            tile_size,
        ).height < tile_capacity_for(width, height, tile_size).full_height),
        tile_size == 0 ==> !tile_capacity_for(width, height, tile_size).use_tiling,
        tile_capacity_for(width, height, tile_size).full_width == if width == 0 {
            1
        } else {
            width
        },
        tile_capacity_for(width, height, tile_size).full_height == if height == 0 {
            1
        } else {
            height
        },
        tile_capacity_for(width, height, tile_size).width >= 1,
        tile_capacity_for(width, height, tile_size).height >= 1,
{
}


/// When tiling, each buffer extent is the tile size unless the frame is
/// smaller on that axis, in which case it is the frame extent.
pub proof fn lemma_tile_capacity_extent(width: u32, height: u32, tile_size: u32)
    ensures
        tile_capacity_for(width, height, tile_size).use_tiling ==> {
            let c = tile_capacity_for(width, height, tile_size);
            &&& c.width == if c.full_width < tile_size {
                c.full_width
            } else {
                tile_size
            }
            &&& c.height == if c.full_height < tile_size {
                c.full_height
            } else {
                tile_size
            }
        },
{
}


/// A capacity change only ever grows the slots: to a power of two that
/// holds every tile and more than the current slots, at least the default
/// capacity, and less than twice the tiles unless it is the default.
pub proof fn lemma_capacity_growth_bounds(current: u32, n: u32, r: Option<u32>)
    requires
        capacity_growth(current, n, r),
    ensures
        r is Some <==> (n > 0 && n > current),
        r matches Some(c) ==> {
            &&& c >= n && c > current && c >= DEFAULT_TILE_CAPACITY
            &&& is_pow2(c as nat)
            &&& c == DEFAULT_TILE_CAPACITY || c < 2 * n
        },
{
    if n > 0 && n > current {
        let p = choose|p: u32| #[trigger] least_pow2_at_least(n as nat, p as nat) && r->0 == if p
            >= DEFAULT_TILE_CAPACITY {
            p
        } else {
            DEFAULT_TILE_CAPACITY
        };
        let k = choose|k: nat| pow2(k) == p as nat;
        if k > 0 {
            lemma_pow2_unfold(k);
        }
        lemma2_to64();
        assert(pow2(6) == DEFAULT_TILE_CAPACITY as nat);
    }
}

/// Slot `s` of a packed blob holds record `s` in its first `record_len`
/// bytes and zeros in the rest of its 256 bytes.
pub proof fn lemma_slot_layout(records: Seq<u8>, record_len: int, slot: int, j: int)
    requires
        1 <= record_len <= 256,
        0 <= slot,
        0 <= j < 256,
    ensures
        slot_byte(records, record_len, slot * 256 + j) == if j < record_len {
            records[slot * record_len + j]
        } else {
            0
        },
{
    lemma_fundamental_div_mod_converse(slot * 256 + j, 256, slot, j);
}

} // verus!
