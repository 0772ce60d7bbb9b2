//! Checked size arithmetic for GPU buffers, textures and CPU staging copies.
//!
//! Every function here either returns the exact product / rounded value it
//! promises, or the precise `GpuLayoutError` variant that explains why the
//! request was refused.
use vstd::prelude::*;
use vstd::arithmetic::power2::{
    pow2, lemma_pow2_pos, lemma_pow2_strictly_increases, lemma_pow2_unfold, lemma2_to64,
};
use vstd::bits::{low_bits_mask, lemma_u64_low_bits_mask_is_mod, lemma_u64_pow2_no_overflow};
use vstd::arithmetic::div_mod::{lemma_fundamental_div_mod, lemma_fundamental_div_mod_converse};

use crate::gpu::{
    async_error_text, map_range_error_text, poll_error_text, copy_bytes_per_row_alignment,
    copy_texture_to_buffer, create_buffer, create_buffer_init, init_buffer_size, copy_dst_bits, map_read_bits, mapped_bytes, poll_wait,
    request_map_read, unmap, usage_accepted, GpuBuffer, GpuDevice, GpuEncoder, TextureCopy,
};
use crate::stdext::{recv_error_text, recv_now, try_reserve_error_text, try_reserve_exact};
use crate::text::{decimal, push_decimal};

verus! {

/// Checked-size failure shared by GPU buffers, textures, and CPU staging layouts.
#[derive(Debug, Clone, PartialEq, Eq)]
pub enum GpuLayoutError {
    ZeroExtent { context: &'static str, width: u32, height: u32 },
    ZeroBytesPerElement { context: &'static str },
    Overflow { context: &'static str, width: u32, height: u32, bytes_per_element: u64 },
    ValueTooLarge { context: &'static str, value: u64, target: &'static str },
    InvalidAlignment { context: &'static str, alignment: u32 },
    LimitExceeded { context: &'static str, value: u64, limit: u64, limit_name: &'static str },
    HostAllocation { context: &'static str, elements: usize },
    LengthMismatch { context: &'static str, left: usize, right: usize },
}

/// Human-readable text of a layout error.
pub open spec fn layout_error_text(e: GpuLayoutError) -> Seq<char> {
    match e {
        GpuLayoutError::ZeroExtent { context, width, height } => context@ + ": zero extent "@
            + decimal(width as nat) + "x"@ + decimal(height as nat),
        GpuLayoutError::ZeroBytesPerElement { context } => context@
            + ": bytes per element must be non-zero"@,
        GpuLayoutError::Overflow { context, width, height, bytes_per_element } => context@ + ": "@
            + decimal(width as nat) + "x"@ + decimal(height as nat) + " at "@ + decimal(
            bytes_per_element as nat,
        ) + " bytes per element overflows"@,
        GpuLayoutError::ValueTooLarge { context, value, target } => context@ + ": "@ + decimal(
            value as nat,
        ) + " does not fit "@ + target@,
        GpuLayoutError::InvalidAlignment { context, alignment } => context@ + ": alignment "@
            + decimal(alignment as nat) + " is not a non-zero power of two"@,
        GpuLayoutError::LimitExceeded { context, value, limit, limit_name } => context@ + ": "@
            + decimal(value as nat) + " exceeds device "@ + limit_name@ + " limit "@ + decimal(
            limit as nat,
        ),
        GpuLayoutError::HostAllocation { context, elements } => context@ + ": failed to allocate "@
            + decimal(elements as nat) + " host elements"@,
        GpuLayoutError::LengthMismatch { context, left, right } => context@
            + ": length mismatch ("@ + decimal(left as nat) + " != "@ + decimal(right as nat) + ")"@,
    }
}

impl GpuLayoutError {
    /// The error rendered as text ("<context>: <what went wrong>").
    pub fn message(&self) -> (r: String)
        ensures
            r@ == layout_error_text(*self),
    {
        match self {
            GpuLayoutError::ZeroExtent { context, width, height } => {
                let mut s = String::from_str(context);
                s.append(": zero extent ");
                push_decimal(&mut s, *width as u64);
                s.append("x");
                push_decimal(&mut s, *height as u64);
                s
            },
            GpuLayoutError::ZeroBytesPerElement { context } => {
                let mut s = String::from_str(context);
                s.append(": bytes per element must be non-zero");
                s
            },
            GpuLayoutError::Overflow { context, width, height, bytes_per_element } => {
                let mut s = String::from_str(context);
                s.append(": ");
                push_decimal(&mut s, *width as u64);
                s.append("x");
                push_decimal(&mut s, *height as u64);
                s.append(" at ");
                push_decimal(&mut s, *bytes_per_element);
                s.append(" bytes per element overflows");
                s
            },
            GpuLayoutError::ValueTooLarge { context, value, target } => {
                let mut s = String::from_str(context);
                s.append(": ");
                push_decimal(&mut s, *value);
                s.append(" does not fit ");
                s.append(target);
                s
            },
            GpuLayoutError::InvalidAlignment { context, alignment } => {
                let mut s = String::from_str(context);
                s.append(": alignment ");
                push_decimal(&mut s, *alignment as u64);
                s.append(" is not a non-zero power of two");
                s
            },
            GpuLayoutError::LimitExceeded { context, value, limit, limit_name } => {
                let mut s = String::from_str(context);
                s.append(": ");
                push_decimal(&mut s, *value);
                s.append(" exceeds device ");
                s.append(limit_name);
                s.append(" limit ");
                push_decimal(&mut s, *limit);
                s
            },
            GpuLayoutError::HostAllocation { context, elements } => {
                let mut s = String::from_str(context);
                s.append(": failed to allocate ");
                push_decimal(&mut s, *elements as u64);
                s.append(" host elements");
                s
            },
            GpuLayoutError::LengthMismatch { context, left, right } => {
                let mut s = String::from_str(context);
                s.append(": length mismatch (");
                push_decimal(&mut s, *left as u64);
                s.append(" != ");
                push_decimal(&mut s, *right as u64);
                s.append(")");
                s
            },
        }
    }
}

/// `n` is `2^k` for some natural `k`.
pub open spec fn is_pow2(n: nat) -> bool {
    exists|k: nat| pow2(k) == n
}

/// Whether `x` is a power of two (`u32::is_power_of_two`): doubling from 1
/// either reaches `x` or passes it.
pub(crate) fn is_power_of_two(x: u32) -> (r: bool)
    ensures
        r == is_pow2(x as nat),
{
    let mut p: u32 = 1;
    let ghost mut k: nat = 0;
    proof {
        lemma2_to64();
    }
    while p < x && p < 0x8000_0000
        invariant
            p == pow2(k),
            k <= 31,
            1 <= p <= 0x8000_0000,
            forall|j: nat| j < k ==> #[trigger] pow2(j) < x,
        decreases 0x8000_0000 - p,
    {
        proof {
            lemma2_to64();
            if k == 31 {
                assert(false);
            }
            if k + 1 < 31 {
                lemma_pow2_strictly_increases(k + 1, 31);
            }
            lemma_pow2_unfold(k + 1);
        }
        p = p * 2;
        proof {
            k = k + 1;
        }
    }
    let r = p == x;
    proof {
        if !r {
            assert forall|j: nat| pow2(j) != x as nat by {
                if j > k {
                    lemma_pow2_strictly_increases(k, j);
                    if p < x {
                        // p reached 2^31 below x, so x needs at least 2^32
                        lemma2_to64();
                        lemma_pow2_unfold(k + 1);
                        if j > k + 1 {
                            lemma_pow2_strictly_increases(k + 1, j);
                        }
                    }
                }
            }
        }
    }
    r
}

/// Smallest power of two at least `n` (`u32::next_power_of_two`); `requires`
/// leaves out the values above 2^31, where it overflows.
pub(crate) fn next_power_of_two(n: u32) -> (r: u32)
    requires
        n <= 0x8000_0000,
    ensures
        is_pow2(r as nat),
        r >= n,
        r == 1 || r / 2 < n,
{
    let mut p: u32 = 1;
    let ghost mut k: nat = 0;
    proof {
        lemma2_to64();
    }
    while p < n
        invariant
            p == pow2(k),
            k <= 31,
            1 <= p <= 0x8000_0000,
            n <= 0x8000_0000,
            p == 1 || p / 2 < n,
        decreases 0x8000_0000 - p,
    {
        proof {
            lemma2_to64();
            if k == 31 {
                assert(false);
            }
            if k + 1 < 31 {
                lemma_pow2_strictly_increases(k + 1, 31);
            }
            lemma_pow2_unfold(k + 1);
        }
        p = p * 2;
        proof {
            k = k + 1;
        }
    }
    assert(pow2(k) == p as nat);
    p
}

/// Smallest multiple of `alignment` that is at least `value`.
pub open spec fn round_up(value: int, alignment: int) -> int {
    ((value + alignment - 1) / alignment) * alignment
}

/// Row alignment (in bytes) that texture-to-buffer copies must respect.
pub open spec fn copy_row_alignment() -> int {
    256
}

/// The device limits that the layout checks read.
#[derive(Debug, Clone, Copy, PartialEq, Eq, Structural)]
pub struct DeviceLimits {
    pub max_buffer_size: u64,
    pub max_storage_buffer_binding_size: u64,
    pub max_texture_dimension_2d: u32,
}

/// Checked element count for a non-empty two-dimensional allocation.
pub fn checked_2d_element_count(context: &'static str, width: u32, height: u32) -> (r: Result<
    u64,
    GpuLayoutError,
>)
    ensures
        match r {
            Ok(n) => width > 0 && height > 0 && n == width * height,
            Err(e) => (width == 0 || height == 0) && e == (GpuLayoutError::ZeroExtent {
                context,
                width,
                height,
            }),
        },
{
    if width == 0 || height == 0 {
        return Err(GpuLayoutError::ZeroExtent { context, width, height });
    }
    let w = width as u64;
    let h = height as u64;
    assert(w * h <= u64::MAX) by (nonlinear_arith)
        requires
            w <= u32::MAX,
            h <= u32::MAX,
    ;
    match w.checked_mul(h) {
        Some(n) => Ok(n),
        None => Err(GpuLayoutError::Overflow { context, width, height, bytes_per_element: 1 }),
    }
}

/// What `checked_2d_buffer_size` answers for a request.
pub open spec fn buffer_size_result(context: &'static str, width: u32, height: u32, bpe: u64) -> Result<
    u64,
    GpuLayoutError,
> {
    if bpe == 0 {
        Err(GpuLayoutError::ZeroBytesPerElement { context })
    } else if width == 0 || height == 0 {
        Err(GpuLayoutError::ZeroExtent { context, width, height })
    } else if width * height * bpe > u64::MAX {
        Err(GpuLayoutError::Overflow { context, width, height, bytes_per_element: bpe })
    } else {
        Ok((width * height * bpe) as u64)
    }
}

/// Checked byte size for a non-empty two-dimensional allocation.
pub fn checked_2d_buffer_size(
    context: &'static str,
    width: u32,
    height: u32,
    bytes_per_element: u64,
) -> (r: Result<u64, GpuLayoutError>)
    ensures
        r == buffer_size_result(context, width, height, bytes_per_element),
{
    if bytes_per_element == 0 {
        return Err(GpuLayoutError::ZeroBytesPerElement { context });
    }
    let count = match checked_2d_element_count(context, width, height) {
        Ok(n) => n,
        Err(e) => return Err(e),
    };
    match count.checked_mul(bytes_per_element) {
        Some(n) => Ok(n),
        None => Err(
            GpuLayoutError::Overflow { context, width, height, bytes_per_element },
        ),
    }
}

/// What `checked_storage_buffer_size` answers for `size` under `limits`.
pub open spec fn storage_size_result(context: &'static str, size: u64, limits: DeviceLimits) -> Result<
    u64,
    GpuLayoutError,
> {
    if size > limits.max_buffer_size {
        Err(
            GpuLayoutError::LimitExceeded {
                context,
                value: size,
                limit: limits.max_buffer_size,
                limit_name: "max_buffer_size",
            },
        )
    } else if size > limits.max_storage_buffer_binding_size {
        Err(
            GpuLayoutError::LimitExceeded {
                context,
                value: size,
                limit: limits.max_storage_buffer_binding_size,
                limit_name: "max_storage_buffer_binding_size",
            },
        )
    } else {
        Ok(size)
    }
}

/// Check a storage-buffer byte size against the given device limits.
pub fn checked_storage_buffer_size_for_limits(
    limits: &DeviceLimits,
    context: &'static str,
    size: u64,
) -> (r: Result<u64, GpuLayoutError>)
    ensures
        r == storage_size_result(context, size, *limits),
{
    if size > limits.max_buffer_size {
        return Err(
            GpuLayoutError::LimitExceeded {
                context,
                value: size,
                limit: limits.max_buffer_size,
                limit_name: "max_buffer_size",
            },
        );
    }
    let max_binding_size = limits.max_storage_buffer_binding_size;
    if size > max_binding_size {
        return Err(
            GpuLayoutError::LimitExceeded {
                context,
                value: size,
                limit: max_binding_size,
                limit_name: "max_storage_buffer_binding_size",
            },
        );
    }
    Ok(size)
}

/// Check a storage-buffer byte size against the limits of `gpu`.
pub fn checked_storage_buffer_size(gpu: &GpuDevice, context: &'static str, size: u64) -> (r:
    Result<u64, GpuLayoutError>)
    ensures
        r == storage_size_result(context, size, gpu.spec_limits()),
{
    let limits = gpu.limits();
    checked_storage_buffer_size_for_limits(&limits, context, size)
}

/// What `checked_2d_storage_buffer_size` answers under `limits`.
pub open spec fn storage_2d_size_result(
    context: &'static str,
    width: u32,
    height: u32,
    bpe: u64,
    limits: DeviceLimits,
) -> Result<u64, GpuLayoutError> {
    match buffer_size_result(context, width, height, bpe) {
        Ok(size) => storage_size_result(context, size, limits),
        Err(e) => Err(e),
    }
}

/// Checked storage-buffer byte size against arithmetic and the given limits.
pub fn checked_2d_storage_buffer_size_for_limits(
    limits: &DeviceLimits,
    context: &'static str,
    width: u32,
    height: u32,
    bytes_per_element: u64,
) -> (r: Result<u64, GpuLayoutError>)
    ensures
        r == storage_2d_size_result(context, width, height, bytes_per_element, *limits),
{
    let size = match checked_2d_buffer_size(context, width, height, bytes_per_element) {
        Ok(s) => s,
        Err(e) => return Err(e),
    };
    checked_storage_buffer_size_for_limits(limits, context, size)
}

/// Checked storage-buffer byte size against arithmetic and the limits of `gpu`.
pub fn checked_2d_storage_buffer_size(
    gpu: &GpuDevice,
    context: &'static str,
    width: u32,
    height: u32,
    bytes_per_element: u64,
) -> (r: Result<u64, GpuLayoutError>)
    ensures
        r == storage_2d_size_result(context, width, height, bytes_per_element, gpu.spec_limits()),
{
    let limits = gpu.limits();
    checked_2d_storage_buffer_size_for_limits(&limits, context, width, height, bytes_per_element)
}

/// What `checked_texture_extent_2d` answers for an extent under `limits`.
pub open spec fn texture_extent_result(
    context: &'static str,
    width: u32,
    height: u32,
    limits: DeviceLimits,
) -> Result<(), GpuLayoutError> {
    let largest: u32 = if width >= height { width } else { height };
    if width == 0 || height == 0 {
        Err(GpuLayoutError::ZeroExtent { context, width, height })
    } else if largest > limits.max_texture_dimension_2d {
        Err(
            GpuLayoutError::LimitExceeded {
                context,
                value: largest as u64,
                limit: limits.max_texture_dimension_2d as u64,
                limit_name: "max_texture_dimension_2d",
            },
        )
    } else {
        Ok(())
    }
}

/// Validate a non-empty 2D texture extent against the given limits.
pub fn checked_texture_extent_2d_for_limits(
    limits: &DeviceLimits,
    context: &'static str,
    width: u32,
    height: u32,
) -> (r: Result<(), GpuLayoutError>)
    ensures
        r == texture_extent_result(context, width, height, *limits),
{
    if let Err(e) = checked_2d_element_count(context, width, height) {
        return Err(e);
    }
    let limit = limits.max_texture_dimension_2d as u64;
    let largest: u64 = if width >= height {
        width as u64
    } else {
        height as u64
    };
    if largest > limit {
        return Err(
            GpuLayoutError::LimitExceeded {
                context,
                value: largest,
                limit,
                limit_name: "max_texture_dimension_2d",
            },
        );
    }
    Ok(())
}

/// Validate a non-empty 2D texture extent against the limit of `gpu`.
pub fn checked_texture_extent_2d(
    gpu: &GpuDevice,
    context: &'static str,
    width: u32,
    height: u32,
) -> (r: Result<(), GpuLayoutError>)
    ensures
        r == texture_extent_result(context, width, height, gpu.spec_limits()),
{
    let limits = gpu.limits();
    checked_texture_extent_2d_for_limits(&limits, context, width, height)
}

/// Checked host-vector length in elements for a non-empty 2D allocation.
pub fn checked_2d_buffer_len(context: &'static str, width: u32, height: u32) -> (r: Result<
    usize,
    GpuLayoutError,
>)
    ensures
        match r {
            Ok(n) => width > 0 && height > 0 && n == width * height,
            Err(e) => if width == 0 || height == 0 {
                e == (GpuLayoutError::ZeroExtent { context, width, height })
            } else {
                width * height > usize::MAX && e == (GpuLayoutError::ValueTooLarge {
                    context,
                    value: (width * height) as u64,
                    target: "usize",
                })
            },
        },
{
    let count = match checked_2d_element_count(context, width, height) {
        Ok(n) => n,
        Err(e) => return Err(e),
    };
    if count <= usize::MAX as u64 {
        Ok(count as usize)
    } else {
        Err(GpuLayoutError::ValueTooLarge { context, value: count, target: "usize" })
    }
}

/// Checked host-vector byte length for a non-empty 2D allocation.
pub fn checked_2d_byte_len(
    context: &'static str,
    width: u32,
    height: u32,
    bytes_per_element: u64,
) -> (r: Result<usize, GpuLayoutError>)
    ensures
        r == match buffer_size_result(context, width, height, bytes_per_element) {
            Ok(bytes) => if bytes <= usize::MAX {
                Ok(bytes as usize)
            } else {
                Err(GpuLayoutError::ValueTooLarge { context, value: bytes, target: "usize" })
            },
            Err(e) => Err(e),
        },
{
    let bytes = match checked_2d_buffer_size(context, width, height, bytes_per_element) {
        Ok(b) => b,
        Err(e) => return Err(e),
    };
    if bytes <= usize::MAX as u64 {
        Ok(bytes as usize)
    } else {
        Err(GpuLayoutError::ValueTooLarge { context, value: bytes, target: "usize" })
    }
}

/// Allocate and initialize a host vector without aborting on capacity failure.
///
/// Whether the allocator grants the reservation is up to the machine; on
/// success every element is a clone of `value`.
pub fn try_vec_filled<T: Clone>(context: &'static str, len: usize, value: T) -> (r: Result<
    Vec<T>,
    GpuLayoutError,
>)
    ensures
        match r {
            Ok(v) => v@.len() == len && forall|i: int|
                0 <= i < len ==> cloned::<T>(value, #[trigger] v@[i]),
            Err(e) => e == (GpuLayoutError::HostAllocation { context, elements: len }),
        },
{
    let mut values: Vec<T> = Vec::new();
    if !try_reserve_exact(&mut values, len) {
        return Err(GpuLayoutError::HostAllocation { context, elements: len });
    }
    values.resize(len, value);
    Ok(values)
}

/// Clearing the low `k` bits of `v` rounds it down to a multiple of `2^k`.
proof fn lemma_clear_low_bits(v: u64, k: nat)
    requires
        k < 64,
    ensures
        (v & !(low_bits_mask(k) as u64)) as int == (v as int / pow2(k) as int) * pow2(k) as int,
{
    lemma_u64_pow2_no_overflow(k);
    lemma_u64_low_bits_mask_is_mod(v, k);
    let m = low_bits_mask(k) as u64;
    assert((v & !m) + (v & m) == v) by (bit_vector);
    lemma_fundamental_div_mod(v as int, pow2(k) as int);
}

/// A power of two that fits in `u32` has an exponent below 32.
proof fn lemma_u32_pow2_exponent(k: nat)
    requires
        pow2(k) <= u32::MAX,
    ensures
        k < 32,
{
    lemma2_to64();
    if k > 32 {
        lemma_pow2_strictly_increases(32, k);
    }
}

/// What `checked_aligned_bytes_per_row` answers for a row request.
pub open spec fn aligned_row_result(
    context: &'static str,
    width: u32,
    bytes_per_pixel: u32,
    alignment: u32,
) -> Result<u32, GpuLayoutError> {
    if !is_pow2(alignment as nat) {
        Err(GpuLayoutError::InvalidAlignment { context, alignment })
    } else if bytes_per_pixel == 0 {
        Err(GpuLayoutError::ZeroBytesPerElement { context })
    } else if round_up(width * bytes_per_pixel, alignment as int) > u32::MAX {
        Err(
            GpuLayoutError::ValueTooLarge {
                context,
                value: round_up(width * bytes_per_pixel, alignment as int) as u64,
                target: "u32",
            },
        )
    } else {
        Ok(round_up(width * bytes_per_pixel, alignment as int) as u32)
    }
}

/// Checked aligned row pitch. Alignment must be a non-zero power of two.
pub fn checked_aligned_bytes_per_row(
    context: &'static str,
    width: u32,
    bytes_per_pixel: u32,
    alignment: u32,
) -> (r: Result<u32, GpuLayoutError>)
    ensures
        r == aligned_row_result(context, width, bytes_per_pixel, alignment),
{
    if !is_power_of_two(alignment) {
        return Err(GpuLayoutError::InvalidAlignment { context, alignment });
    }
    if bytes_per_pixel == 0 {
        return Err(GpuLayoutError::ZeroBytesPerElement { context });
    }
    let ghost k = choose|k: nat| pow2(k) == alignment as nat;
    proof {
        lemma_u32_pow2_exponent(k);
        lemma_pow2_pos(k);
    }
    let w = width as u64;
    let b = bytes_per_pixel as u64;
    assert(w * b <= 0xFFFF_FFFE_0000_0001) by (nonlinear_arith)
        requires
            w <= u32::MAX,
            b <= u32::MAX,
    ;
    let unaligned = match w.checked_mul(b) {
        Some(v) => v,
        None => {
            return Err(
                GpuLayoutError::Overflow {
                    context,
                    width,
                    height: 1,
                    bytes_per_element: bytes_per_pixel as u64,
                },
            );
        },
    };
    let mask = (alignment - 1) as u64;
    let aligned = match unaligned.checked_add(mask) {
        Some(v) => {
            proof {
                lemma_clear_low_bits(v, k);
                assert(low_bits_mask(k) == pow2(k) - 1);
            }
            v & !mask
        },
        None => {
            return Err(
                GpuLayoutError::Overflow {
                    context,
                    width,
                    height: 1,
                    bytes_per_element: bytes_per_pixel as u64,
                },
            );
        },
    };
    assert(aligned == round_up(width * bytes_per_pixel, alignment as int));
    if aligned <= u32::MAX as u64 {
        Ok(aligned as u32)
    } else {
        Err(GpuLayoutError::ValueTooLarge { context, value: aligned, target: "u32" })
    }
}

/// Staging layout for copying a `width x height` texture into a buffer whose
/// rows are padded to the copy alignment, and back into a tight pixel array.
#[derive(Debug, Clone, Copy, PartialEq, Eq, Structural)]
pub struct TextureReadbackLayout {
    width: u32,
    height: u32,
    row_bytes: u32,
    padded_row_bytes: u32,
    buffer_size: u64,
    output_size: usize,
}

/// What `TextureReadbackLayout::new` answers: the error it returns, or the
/// tuple `(row_bytes, padded_row_bytes, buffer_size, output_size)`.
pub open spec fn readback_layout_result(
    context: &'static str,
    width: u32,
    height: u32,
    bytes_per_pixel: u32,
) -> Result<(u32, u32, u64, usize), GpuLayoutError> {
    let row = width * bytes_per_pixel;
    let padded = round_up(row, copy_row_alignment());
    let out = width * height * bytes_per_pixel;
    if row > u32::MAX {
        Err(GpuLayoutError::ValueTooLarge { context, value: row as u64, target: "u32" })
    } else if bytes_per_pixel == 0 {
        Err(GpuLayoutError::ZeroBytesPerElement { context })
    } else if padded > u32::MAX {
        Err(GpuLayoutError::ValueTooLarge { context, value: padded as u64, target: "u32" })
    } else if width == 0 || height == 0 {
        Err(GpuLayoutError::ZeroExtent { context, width, height })
    } else if out > usize::MAX {
        Err(GpuLayoutError::ValueTooLarge { context, value: out as u64, target: "usize" })
    } else {
        Ok((row as u32, padded as u32, (padded * height) as u64, out as usize))
    }
}

impl TextureReadbackLayout {
    /// Texture width in pixels.
    pub closed spec fn spec_width(self) -> u32 {
        self.width
    }

    /// Texture height in rows.
    pub closed spec fn spec_height(self) -> u32 {
        self.height
    }

    /// Tightly packed bytes per row.
    pub closed spec fn spec_row_bytes(self) -> u32 {
        self.row_bytes
    }

    /// Bytes per row in the padded staging buffer.
    pub closed spec fn spec_padded_row_bytes(self) -> u32 {
        self.padded_row_bytes
    }

    /// Size of the padded staging buffer.
    pub closed spec fn spec_buffer_size(self) -> u64 {
        self.buffer_size
    }

    /// Size of the tightly packed output.
    pub closed spec fn spec_output_size(self) -> usize {
        self.output_size
    }

    /// The fields agree with one another as `new` computes them.
    pub closed spec fn wf(self) -> bool {
        &&& self.width > 0
        &&& self.height > 0
        &&& self.row_bytes > 0
        &&& self.row_bytes % self.width == 0
        &&& self.padded_row_bytes == round_up(self.row_bytes as int, copy_row_alignment())
        &&& self.buffer_size == self.padded_row_bytes * self.height
        &&& self.output_size == self.row_bytes * self.height
    }

    /// Every layout has a positive extent, a padded row that holds the tight
    /// row and is a multiple of the copy alignment, and a staging buffer at
    /// least as large as the output.
    pub proof fn lemma_layout_consistent(&self)
        requires
            self.wf(),
        ensures
            self.spec_width() > 0,
            self.spec_height() > 0,
            self.spec_row_bytes() <= self.spec_padded_row_bytes()
                < self.spec_row_bytes() + copy_row_alignment(),
            (self.spec_padded_row_bytes() as int) % copy_row_alignment() == 0,
            self.spec_buffer_size() == self.spec_padded_row_bytes() * self.spec_height(),
            self.spec_output_size() == self.spec_row_bytes() * self.spec_height(),
            self.spec_output_size() <= self.spec_buffer_size(),
    {
        lemma_round_up_bounds(self.row_bytes as int, copy_row_alignment());
        let p = self.padded_row_bytes as int;
        let r = self.row_bytes as int;
        let h = self.height as int;
        assert(r * h <= p * h) by (nonlinear_arith)
            requires
                r <= p,
                0 < h,
        ;
    }

    pub fn new(context: &'static str, width: u32, height: u32, bytes_per_pixel: u32) -> (r: Result<
        Self,
        GpuLayoutError,
    >)
        ensures
            match (r, readback_layout_result(context, width, height, bytes_per_pixel)) {
                (Ok(l), Ok(t)) => l.wf() && l.spec_width() == width && l.spec_height() == height
                    && l.spec_row_bytes() == t.0 && l.spec_padded_row_bytes() == t.1
                    && l.spec_buffer_size() == t.2 && l.spec_output_size() == t.3,
                (Err(e), Err(f)) => e == f,
                _ => false,
            },
    {
        let w = width as u64;
        let b = bytes_per_pixel as u64;
        assert(w * b <= 0xFFFF_FFFE_0000_0001) by (nonlinear_arith)
            requires
                w <= u32::MAX,
                b <= u32::MAX,
        ;
        let row_bytes_u64 = match w.checked_mul(b) {
            Some(v) => v,
            None => {
                return Err(
                    GpuLayoutError::Overflow {
                        context,
                        width,
                        height: 1,
                        bytes_per_element: bytes_per_pixel as u64,
                    },
                );
            },
        };
        if row_bytes_u64 > u32::MAX as u64 {
            return Err(
                GpuLayoutError::ValueTooLarge { context, value: row_bytes_u64, target: "u32" },
            );
        }
        let row_bytes = row_bytes_u64 as u32;
        let alignment = copy_bytes_per_row_alignment();
        proof {
            lemma2_to64();
            assert(pow2(8) == alignment);
        }
        let padded_row_bytes = match checked_aligned_bytes_per_row(
            context,
            width,
            bytes_per_pixel,
            alignment,
        ) {
            Ok(p) => p,
            Err(e) => return Err(e),
        };
        let p = padded_row_bytes as u64;
        let h = height as u64;
        assert(p * h <= 0xFFFF_FFFE_0000_0001) by (nonlinear_arith)
            requires
                p <= u32::MAX,
                h <= u32::MAX,
        ;
        let buffer_size = match p.checked_mul(h) {
            Some(v) => v,
            None => {
                return Err(
                    GpuLayoutError::Overflow {
                        context,
                        width,
                        height,
                        bytes_per_element: padded_row_bytes as u64,
                    },
                );
            },
        };
        proof {
            let ww = width as int;
            let hh = height as int;
            let bb = bytes_per_pixel as int;
            assert(ww * hh * bb == (ww * bb) * hh) by (nonlinear_arith);
            assert((ww * bb) * hh <= u32::MAX * u32::MAX) by (nonlinear_arith)
                requires
                    0 <= ww * bb <= u32::MAX,
                    0 <= hh <= u32::MAX,
            ;
        }
        let output_size_u64 = match checked_2d_buffer_size(
            context,
            width,
            height,
            bytes_per_pixel as u64,
        ) {
            Ok(v) => v,
            Err(e) => return Err(e),
        };
        if output_size_u64 > usize::MAX as u64 {
            return Err(
                GpuLayoutError::ValueTooLarge { context, value: output_size_u64, target: "usize" },
            );
        }
        let output_size = output_size_u64 as usize;
        proof {
            let ww = width as int;
            let bb = bytes_per_pixel as int;
            assert((ww * bb) % ww == 0) by (nonlinear_arith)
                requires
                    ww > 0,
            ;
            assert(ww * bb > 0) by (nonlinear_arith)
                requires
                    ww > 0,
                    bb > 0,
            ;
        }
        Ok(
            TextureReadbackLayout {
                width,
                height,
                row_bytes,
                padded_row_bytes,
                buffer_size,
                output_size,
            },
        )
    }

    /// Layout for an RGBA8 texture (4 bytes per pixel).
    pub fn rgba8(width: u32, height: u32) -> (r: Result<Self, GpuLayoutError>)
        ensures
            match (r, readback_layout_result("RGBA8 texture readback", width, height, 4)) {
                (Ok(l), Ok(t)) => l.wf() && l.spec_width() == width && l.spec_height() == height
                    && l.spec_row_bytes() == t.0 && l.spec_padded_row_bytes() == t.1
                    && l.spec_buffer_size() == t.2 && l.spec_output_size() == t.3,
                (Err(e), Err(f)) => e == f,
                _ => false,
            },
    {
        Self::new("RGBA8 texture readback", width, height, 4)
    }

    pub fn width(&self) -> (r: u32)
        ensures
            r == self.spec_width(),
    {
        self.width
    }

    pub fn height(&self) -> (r: u32)
        ensures
            r == self.spec_height(),
    {
        self.height
    }

    pub fn row_bytes(&self) -> (r: u32)
        ensures
            r == self.spec_row_bytes(),
    {
        self.row_bytes
    }

    pub fn padded_row_bytes(&self) -> (r: u32)
        ensures
            r == self.spec_padded_row_bytes(),
    {
        self.padded_row_bytes
    }

    pub fn buffer_size(&self) -> (r: u64)
        ensures
            r == self.spec_buffer_size(),
    {
        self.buffer_size
    }

    pub fn output_size(&self) -> (r: usize)
        ensures
            r == self.spec_output_size(),
    {
        self.output_size
    }
}

/// `round_up(v, a)` is the least multiple of `a` that is at least `v`.
pub proof fn lemma_round_up_bounds(v: int, a: int)
    requires
        v >= 0,
        a > 0,
    ensures
        v <= round_up(v, a) < v + a,
        round_up(v, a) % a == 0,
        forall|m: int| #![trigger m % a] m >= v && m % a == 0 ==> round_up(v, a) <= m,
{
    let q = (v + a - 1) / a;
    let rem = (v + a - 1) % a;
    lemma_fundamental_div_mod(v + a - 1, a);
    vstd::arithmetic::div_mod::lemma_mod_pos_bound(v + a - 1, a);
    vstd::arithmetic::div_mod::lemma_mod_multiples_basic(q, a);
    assert(round_up(v, a) == q * a);
    assert(a * q <= v + a - 1 && v + a - 1 < a * q + a) by {
        assert(v + a - 1 == a * q + rem);
        assert(0 <= rem < a);
    }
    assert forall|m: int| #![trigger m % a] m >= v && m % a == 0 implies round_up(v, a) <= m by {
        lemma_fundamental_div_mod(m, a);
        let qm = m / a;
        assert(m == a * qm);
        assert(q <= qm) by (nonlinear_arith)
            requires
                a * q <= v + a - 1,
                m >= v,
                m == a * qm,
                a > 0,
        ;
        assert(q * a <= qm * a) by (nonlinear_arith)
            requires
                q <= qm,
                a > 0,
        ;
    }
}

/// Recoverable error from GPU rendering or buffer/texture readback.
#[derive(Debug)]
pub enum ReadbackError {
    Layout(GpuLayoutError),
    PollFailed(wgpu::PollError),
    CallbackDropped(std::sync::mpsc::RecvError),
    MapFailed(wgpu::BufferAsyncError),
    MissingTarget,
    StagingBufferTooSmall { required: u64, capacity: u64 },
    MappedRangeTooSmall { expected: usize, actual: usize },
    HostAllocation(std::collections::TryReserveError),
    SceneBuild(String),
    MappedRangeUnavailable(wgpu::MapRangeError),
}

impl From<GpuLayoutError> for ReadbackError {
    fn from(value: GpuLayoutError) -> (r: Self) {
        ReadbackError::Layout(value)
    }
}

impl vstd::std_specs::convert::FromSpecImpl<GpuLayoutError> for ReadbackError {
    open spec fn obeys_from_spec() -> bool {
        true
    }

    open spec fn from_spec(value: GpuLayoutError) -> Self {
        ReadbackError::Layout(value)
    }
}

impl From<std::collections::TryReserveError> for ReadbackError {
    fn from(value: std::collections::TryReserveError) -> (r: Self) {
        ReadbackError::HostAllocation(value)
    }
}

impl vstd::std_specs::convert::FromSpecImpl<std::collections::TryReserveError> for ReadbackError {
    open spec fn obeys_from_spec() -> bool {
        true
    }

    open spec fn from_spec(value: std::collections::TryReserveError) -> Self {
        ReadbackError::HostAllocation(value)
    }
}

/// Fixed text that opens the message of each readback error variant.
pub open spec fn readback_error_prefix(e: ReadbackError) -> Seq<char> {
    match e {
        ReadbackError::Layout(_) => "invalid readback layout: "@,
        ReadbackError::PollFailed(_) => "device poll failed: "@,
        ReadbackError::CallbackDropped(_) => "map callback dropped before completion: "@,
        ReadbackError::MapFailed(_) => "map_async failed: "@,
        ReadbackError::MissingTarget => "readback has no encoded target"@,
        ReadbackError::StagingBufferTooSmall { .. } => "readback staging buffer too small: requires "@,
        ReadbackError::MappedRangeTooSmall { .. } => "mapped range too small: expected at least "@,
        ReadbackError::HostAllocation(_) => "cannot allocate host readback storage: "@,
        ReadbackError::SceneBuild(_) => "scene build failed: "@,
        ReadbackError::MappedRangeUnavailable(_) => "mapped range unavailable: "@,
    }
}

/// Complete message of the variants whose whole text is known; `None` for
/// those that append the text of an outside error that is not stated here.
pub open spec fn readback_error_text(e: ReadbackError) -> Option<Seq<char>> {
    match e {
        ReadbackError::Layout(le) => Some(readback_error_prefix(e) + layout_error_text(le)),
        ReadbackError::MissingTarget => Some(readback_error_prefix(e)),
        ReadbackError::StagingBufferTooSmall { required, capacity } => Some(
            readback_error_prefix(e) + decimal(required as nat) + " bytes, capacity "@ + decimal(
                capacity as nat,
            ),
        ),
        ReadbackError::MappedRangeTooSmall { expected, actual } => Some(
            readback_error_prefix(e) + decimal(expected as nat) + " bytes, got "@ + decimal(
                actual as nat,
            ),
        ),
        ReadbackError::SceneBuild(msg) => Some(readback_error_prefix(e) + msg@),
        ReadbackError::MapFailed(_) => Some(readback_error_prefix(e) + "BufferAsyncError"@),
        _ => None,
    }
}

impl ReadbackError {
    /// The error rendered as text. Variants with plain payloads are rendered
    /// completely; those carrying an outside error append that error's own
    /// text to their fixed opening.
    pub fn message(&self) -> (r: String)
        ensures
            readback_error_prefix(*self).is_prefix_of(r@),
            readback_error_text(*self) matches Some(t) ==> r@ == t,
    {
        let prefix = match self {
            ReadbackError::Layout(_) => "invalid readback layout: ",
            ReadbackError::PollFailed(_) => "device poll failed: ",
            ReadbackError::CallbackDropped(_) => "map callback dropped before completion: ",
            ReadbackError::MapFailed(_) => "map_async failed: ",
            ReadbackError::MissingTarget => "readback has no encoded target",
            ReadbackError::StagingBufferTooSmall { .. } => "readback staging buffer too small: requires ",
            ReadbackError::MappedRangeTooSmall { .. } => "mapped range too small: expected at least ",
            ReadbackError::HostAllocation(_) => "cannot allocate host readback storage: ",
            ReadbackError::SceneBuild(_) => "scene build failed: ",
            ReadbackError::MappedRangeUnavailable(_) => "mapped range unavailable: ",
        };
        let mut s = String::from_str(prefix);
        match self {
            ReadbackError::Layout(e) => {
                let t = e.message();
                s.append(t.as_str());
            },
            ReadbackError::PollFailed(e) => {
                let t = poll_error_text(e);
                s.append(t.as_str());
            },
            ReadbackError::CallbackDropped(e) => {
                let t = recv_error_text(e);
                s.append(t.as_str());
            },
            ReadbackError::MapFailed(e) => {
                let t = async_error_text(e);
                s.append(t.as_str());
            },
            ReadbackError::MissingTarget => {},
            ReadbackError::StagingBufferTooSmall { required, capacity } => {
                push_decimal(&mut s, *required);
                s.append(" bytes, capacity ");
                push_decimal(&mut s, *capacity);
            },
            ReadbackError::MappedRangeTooSmall { expected, actual } => {
                push_decimal(&mut s, *expected as u64);
                s.append(" bytes, got ");
                push_decimal(&mut s, *actual as u64);
            },
            ReadbackError::HostAllocation(e) => {
                let t = try_reserve_error_text(e);
                s.append(t.as_str());
            },
            ReadbackError::SceneBuild(msg) => {
                s.append(msg.as_str());
            },
            ReadbackError::MappedRangeUnavailable(e) => {
                let t = map_range_error_text(e);
                s.append(t.as_str());
            },
        }
        assert(readback_error_prefix(*self).is_prefix_of(s@)) by {
            assert(s@.subrange(0, prefix@.len() as int) =~= prefix@);
        }
        s
    }
}

/// Index of column `c` of row `r` in a row-major array with row length `stride`.
pub open spec fn row_major(r: int, c: int, stride: int) -> int {
    r * stride + c
}

proof fn lemma_row_major_bounds(r: int, c: int, rows: int, stride: int)
    requires
        0 <= r < rows,
        0 <= c < stride,
    ensures
        0 <= row_major(r, c, stride) < rows * stride,
        row_major(r, c, stride) < row_major(rows - 1, stride, stride) + 1,
{
    assert(0 <= r * stride + c < rows * stride) by (nonlinear_arith)
        requires
            0 <= r < rows,
            0 <= c < stride,
    ;
    assert(r * stride + c <= (rows - 1) * stride + stride) by (nonlinear_arith)
        requires
            0 <= r < rows,
            0 <= c < stride,
    ;
}

/// Strip the row padding from a mapped staging buffer laid out as `layout`
/// describes: row `r` of the result is the first `row_bytes` bytes of the
/// padded row `r` of `data`.
pub fn unpad_readback_rows(layout: &TextureReadbackLayout, data: &[u8]) -> (r: Result<
    Vec<u8>,
    ReadbackError,
>)
    requires
        layout.wf(),
    ensures
        match r {
            Ok(pixels) => {
                &&& layout.spec_buffer_size() <= usize::MAX
                &&& layout.spec_buffer_size() <= data@.len()
                &&& pixels@.len() == layout.spec_output_size()
                &&& forall|row: int, c: int|
                    #![trigger row_major(row, c, layout.spec_row_bytes() as int)]
                    0 <= row < layout.spec_height() && 0 <= c < layout.spec_row_bytes()
                        ==> pixels@[row_major(row, c, layout.spec_row_bytes() as int)]
                        == data@[row_major(row, c, layout.spec_padded_row_bytes() as int)]
            },
            Err(e) => if layout.spec_buffer_size() > usize::MAX {
                e == ReadbackError::Layout(
                    GpuLayoutError::ValueTooLarge {
                        context: "RGBA8 mapped range",
                        value: layout.spec_buffer_size(),
                        target: "usize",
                    },
                )
            } else {
                data@.len() < layout.spec_buffer_size() && e
                    == (ReadbackError::MappedRangeTooSmall {
                    expected: layout.spec_buffer_size() as usize,
                    actual: data@.len() as usize,
                })
            },
        },
{
    let actual = data.len();
    let buffer_size = layout.buffer_size();
    if buffer_size > usize::MAX as u64 {
        return Err(
            ReadbackError::Layout(
                GpuLayoutError::ValueTooLarge {
                    context: "RGBA8 mapped range",
                    value: buffer_size,
                    target: "usize",
                },
            ),
        );
    }
    let expected = buffer_size as usize;
    if actual < expected {
        return Err(ReadbackError::MappedRangeTooSmall { expected, actual });
    }
    proof {
        layout.lemma_layout_consistent();
    }
    let row_bytes = layout.row_bytes() as usize;
    let padded_row_bytes = layout.padded_row_bytes() as usize;
    let height = layout.height() as usize;
    let ghost rb = row_bytes as int;
    let ghost pad = padded_row_bytes as int;
    let mut pixels: Vec<u8> = Vec::with_capacity(layout.output_size());
    let mut row: usize = 0;
    while row < height
        invariant
            row <= height,
            height == layout.spec_height(),
            rb == row_bytes,
            pad == padded_row_bytes,
            row_bytes <= padded_row_bytes,
            layout.spec_output_size() == rb * height,
            padded_row_bytes * height <= actual,
            actual == data@.len(),
            pixels@.len() == row * rb,
            forall|r: int, c: int|
                #![trigger row_major(r, c, rb)]
                0 <= r < row && 0 <= c < rb ==> pixels@[row_major(r, c, rb)] == data@[row_major(
                    r,
                    c,
                    pad,
                )],
        decreases height - row,
    {
        proof {
            assert(row * pad + pad <= pad * height) by (nonlinear_arith)
                requires
                    row < height,
                    pad >= 0,
            ;
            assert((row + 1) * rb <= height * rb) by (nonlinear_arith)
                requires
                    row < height,
                    rb >= 0,
            ;
        }
        let start = row * padded_row_bytes;
        let mut c: usize = 0;
        while c < row_bytes
            invariant
                row < height,
                c <= row_bytes,
                rb == row_bytes,
                pad == padded_row_bytes,
                row_bytes <= padded_row_bytes,
                start == row * pad,
                start + pad <= actual,
                actual == data@.len(),
                (row + 1) * rb <= height * rb,
                layout.spec_output_size() == rb * height,
                pixels@.len() == row * rb + c,
                forall|r: int, cc: int|
                    #![trigger row_major(r, cc, rb)]
                    0 <= r < row && 0 <= cc < rb ==> pixels@[row_major(r, cc, rb)]
                        == data@[row_major(r, cc, pad)],
                forall|cc: int|
                    0 <= cc < c ==> #[trigger] pixels@[row * rb + cc] == data@[start + cc],
            decreases row_bytes - c,
        {
            proof {
                assert(row * rb + c < (row + 1) * rb) by (nonlinear_arith)
                    requires
                        c < rb,
                ;
            }
            let ghost before = pixels@;
            pixels.push(data[start + c]);
            proof {
                assert forall|r: int, cc: int|
                    #![trigger row_major(r, cc, rb)]
                    0 <= r < row && 0 <= cc < rb implies pixels@[row_major(r, cc, rb)]
                    == data@[row_major(r, cc, pad)] by {
                    lemma_row_major_bounds(r, cc, row as int, rb);
                    assert(before[row_major(r, cc, rb)] == data@[row_major(r, cc, pad)]);
                }
                assert forall|cc: int| 0 <= cc < c + 1 implies #[trigger] pixels@[row * rb + cc]
                    == data@[start + cc] by {
                    if cc < c {
                        assert(before[row * rb + cc] == data@[start + cc]);
                    }
                }
            }
            c += 1;
        }
        proof {
            assert forall|r: int, cc: int|
                #![trigger row_major(r, cc, rb)]
                0 <= r < row + 1 && 0 <= cc < rb implies pixels@[row_major(r, cc, rb)]
                == data@[row_major(r, cc, pad)] by {
                if r == row {
                    assert(row_major(r, cc, rb) == row * rb + cc);
                    assert(row_major(r, cc, pad) == start + cc);
                    assert(pixels@[row * rb + cc] == data@[start + cc]);
                }
            }
            assert(row * rb + rb == (row + 1) * rb) by (nonlinear_arith);
        }
        row += 1;
    }
    assert(row * rb == rb * height) by (nonlinear_arith)
        requires
            row == height,
    ;
    Ok(pixels)
}

/// Size a buffer request is created with: requests below 16 bytes are
/// rounded up to 16 (WebGPU minimum).
pub open spec fn buffer_request_size(size: u64) -> u64 {
    if size >= 16 {
        size
    } else {
        16
    }
}

/// Size a buffer request is created with (`max(size, 16)`).
pub fn request_size(size: u64) -> (r: u64)
    ensures
        r == buffer_request_size(size),
{
    if size >= 16 {
        size
    } else {
        16
    }
}

/// Single entry point for creating a GPU buffer: applies the 16-byte
/// minimum size so callers don't each repeat the same guard. `requires`
/// leaves out the requests the device refuses (which panic): a rounded
/// size above its `max_buffer_size`, or usage bits outside `usage_accepted`.
pub fn make_buffer(gpu: &GpuDevice, label: &str, size: u64, usage: u32) -> (r: GpuBuffer)
    requires
        buffer_request_size(size) <= gpu.spec_limits().max_buffer_size,
        usage_accepted(usage),
    ensures
        r.spec_size() == buffer_request_size(size),
        r.spec_usage() == usage,
        !r.spec_mapped(),
        r.spec_reads() == Seq::<Seq<u8>>::empty(),
{
    let size = request_size(size);
    create_buffer(gpu, label, size, usage)
}

/// Buffer created with initial `contents` (copied in at creation); its size
/// is the contents' length rounded up to a multiple of 4, 0 for none.
/// `requires` leaves out the requests the device refuses (which panic).
pub fn make_buffer_init(gpu: &GpuDevice, label: &str, contents: &[u8], usage: u32) -> (r: GpuBuffer)
    requires
        init_buffer_size(contents@.len()) <= gpu.spec_limits().max_buffer_size,
        usage_accepted(usage),
    ensures
        r.spec_size() == init_buffer_size(contents@.len()),
        r.spec_usage() == usage,
        !r.spec_mapped(),
        r.spec_reads() == Seq::<Seq<u8>>::empty(),
{
    let len = contents.len() as u64;
    let size = if len == 0 {
        0
    } else {
        (len / 4 + if len % 4 == 0 {
            0
        } else {
            1
        }) * 4
    };
    assert(size == init_buffer_size(contents@.len()));
    create_buffer_init(gpu, label, contents, usage, size)
}

/// The usage bits of a readback staging buffer are accepted by every device.
proof fn lemma_readback_usage_accepted()
    ensures
        usage_accepted(9),
        9u32 & 1u32 != 0,
{
    assert(usage_accepted(9u32) && 9u32 & 1u32 != 0) by (bit_vector);
}

/// A buffer the CPU maps for reading: readback usage (MAP_READ | COPY_DST)
/// and a size that is a multiple of 4 and at least 16 bytes.
pub struct ReadbackBuffer {
    buffer: GpuBuffer,
}

impl ReadbackBuffer {
    /// Readback usage, and a size that is a multiple of 4 and at least 16.
    pub closed spec fn wf(self) -> bool {
        &&& self.buffer.spec_usage() == 9
        &&& self.buffer.spec_size() % 4 == 0
        &&& self.buffer.spec_size() >= 16
    }

    /// Size in bytes of the buffer.
    pub closed spec fn spec_size(self) -> u64 {
        self.buffer.spec_size()
    }

    /// The `wgpu` buffer (`GpuBuffer::spec_handle`).
    pub closed spec fn spec_handle(self) -> wgpu::Buffer {
        self.buffer.spec_handle()
    }

    /// The contents read out of the buffer, oldest first.
    pub closed spec fn spec_reads(self) -> Seq<Seq<u8>> {
        self.buffer.spec_reads()
    }

    /// Create a readback buffer for `size` bytes (rounded up to 16).
    pub fn new(gpu: &GpuDevice, label: &str, size: u64) -> (r: Self)
        requires
            size % 4 == 0,
            buffer_request_size(size) <= gpu.spec_limits().max_buffer_size,
        ensures
            r.wf(),
            r.spec_size() == buffer_request_size(size),
            r.spec_reads() == Seq::<Seq<u8>>::empty(),
    {
        let usage = map_read_bits() | copy_dst_bits();
        proof {
            assert(1u32 | 8u32 == 9u32) by (bit_vector);
            lemma_readback_usage_accepted();
        }
        let buffer = make_buffer(gpu, label, size, usage);
        ReadbackBuffer { buffer }
    }

    /// The underlying buffer.
    pub fn buffer(&self) -> (r: &GpuBuffer)
        ensures
            r.spec_size() == self.spec_size(),
            r.spec_handle() == self.spec_handle(),
    {
        &self.buffer
    }

    /// Map the buffer, copy out its bytes and unmap it (`map_buffer_read`).
    pub fn read(&mut self, gpu: &GpuDevice) -> (r: Result<Vec<u8>, ReadbackError>)
        requires
            old(self).wf(),
        ensures
            final(self).wf(),
            final(self).spec_size() == old(self).spec_size(),
            final(self).spec_handle() == old(self).spec_handle(),
            r matches Ok(b) ==> b@.len() == old(self).spec_size() && final(self).spec_reads()
                == old(self).spec_reads().push(b@),
            r is Err ==> final(self).spec_reads() == old(self).spec_reads(),
            r is Err ==> match r {
                Err(ReadbackError::PollFailed(_)) => true,
                Err(ReadbackError::MapFailed(_)) => true,
                Err(ReadbackError::CallbackDropped(_)) => true,
                Err(ReadbackError::MappedRangeUnavailable(_)) => true,
                _ => false,
            },
    {
        proof {
            lemma_readback_usage_accepted();
        }
        map_buffer_read(gpu, &mut self.buffer)
    }
}

/// Map a buffer once, copy out its bytes, then unmap it. The caller must
/// submit every command that writes `buffer` before calling. `requires`
/// leaves out the buffers wgpu's `map_async` panics on (no MAP_READ usage,
/// a length that is not a multiple of 4). A successful read has exactly the
/// buffer's size, is appended to the buffer's read log and leaves the buffer
/// unmapped; on an error nothing is read and nothing more is known of its
/// mapping than before (a mapped range that cannot be obtained is not
/// unmapped, since wgpu panics when unmapping a buffer that is not mapped).
pub fn map_buffer_read(gpu: &GpuDevice, buffer: &mut GpuBuffer) -> (r: Result<
    Vec<u8>,
    ReadbackError,
>)
    requires
        old(buffer).spec_usage() & 1u32 != 0,
        old(buffer).spec_size() % 4 == 0,
        old(buffer).spec_size() > 0,
    ensures
        final(buffer).spec_handle() == old(buffer).spec_handle(),
        final(buffer).spec_size() == old(buffer).spec_size(),
        final(buffer).spec_usage() == old(buffer).spec_usage(),
        r matches Ok(b) ==> b@.len() == old(buffer).spec_size() && !final(buffer).spec_mapped()
            && final(buffer).spec_reads() == old(buffer).spec_reads().push(b@),
        r is Err ==> final(buffer).spec_mapped() == old(buffer).spec_mapped()
            && final(buffer).spec_reads() == old(buffer).spec_reads() && match r {
            Err(ReadbackError::PollFailed(_)) => true,
            Err(ReadbackError::MapFailed(_)) => true,
            Err(ReadbackError::CallbackDropped(_)) => true,
            Err(ReadbackError::MappedRangeUnavailable(_)) => true,
            _ => false,
        },
{
    let rx = request_map_read(buffer);
    if let Err(e) = poll_wait(gpu) {
        return Err(ReadbackError::PollFailed(e));
    }
    match recv_now(&rx) {
        Ok(Ok(())) => {},
        Ok(Err(e)) => {
            return Err(ReadbackError::MapFailed(e));
        },
        Err(e) => {
            return Err(ReadbackError::CallbackDropped(e));
        },
    }
    let bytes = match mapped_bytes(buffer) {
        Ok(bytes) => bytes,
        Err(e) => return Err(ReadbackError::MappedRangeUnavailable(e)),
    };
    unmap(buffer);
    Ok(bytes)
}

/// Grow-only staging allocation plus layout for the most recent texture copy.
///
/// Recurrent render paths keep one instance. A larger frame reallocates once;
/// smaller frames reuse the existing mapped-read buffer.
pub struct TextureReadback {
    buffer: Option<ReadbackBuffer>,
    capacity: u64,
    layout: Option<TextureReadbackLayout>,
}

impl TextureReadback {
    /// A remembered layout is always one that `TextureReadbackLayout::new`
    /// built, and the staging buffer is a readback buffer that holds its
    /// whole padded copy. Every function of the library keeps this.
    pub closed spec fn wf(self) -> bool {
        &&& self.layout matches Some(l) ==> l.wf() && self.buffer is Some && self.capacity
            >= l.spec_buffer_size()
        &&& self.buffer matches Some(b) ==> b.wf() && b.spec_size() >= self.capacity
    }

    /// Whether a staging buffer has been allocated.
    pub closed spec fn has_buffer(self) -> bool {
        self.buffer is Some
    }

    /// Size of the allocated staging buffer (0 before the first copy).
    pub closed spec fn spec_capacity(self) -> u64 {
        self.capacity
    }

    /// Layout of the most recently encoded copy.
    pub closed spec fn spec_layout(self) -> Option<TextureReadbackLayout> {
        self.layout
    }

    /// The staging buffer's `wgpu` buffer (meaningful once one exists).
    pub closed spec fn spec_staging_handle(self) -> wgpu::Buffer {
        self.buffer->0.spec_handle()
    }

    /// The contents read out of the staging buffer, oldest first (meaningful
    /// once one exists).
    pub closed spec fn spec_staging_reads(self) -> Seq<Seq<u8>> {
        self.buffer->0.spec_reads()
    }

    pub fn new() -> (r: Self)
        ensures
            r.wf(),
            !r.has_buffer(),
            r.spec_capacity() == 0,
            r.spec_layout() is None,
    {
        TextureReadback { buffer: None, capacity: 0, layout: None }
    }

    pub fn capacity(&self) -> (r: u64)
        ensures
            r == self.spec_capacity(),
    {
        self.capacity
    }
}

impl Default for TextureReadback {
    fn default() -> (r: Self)
        ensures
            r.wf(),
            !r.has_buffer(),
            r.spec_capacity() == 0,
            r.spec_layout() is None,
    {
        TextureReadback::new()
    }
}

/// `pixels` is `data` with its row padding stripped as `l` lays it out: row
/// `r` of `pixels` is the first `row_bytes` bytes of padded row `r`.
pub open spec fn rows_unpadded(l: TextureReadbackLayout, data: Seq<u8>, pixels: Seq<u8>) -> bool {
    &&& pixels.len() == l.spec_output_size()
    &&& l.spec_buffer_size() <= data.len()
    &&& forall|row: int, c: int|
        #![trigger row_major(row, c, l.spec_row_bytes() as int)]
        0 <= row < l.spec_height() && 0 <= c < l.spec_row_bytes() ==> pixels[row_major(
            row,
            c,
            l.spec_row_bytes() as int,
        )] == data[row_major(row, c, l.spec_padded_row_bytes() as int)]
}

/// What encoding a readback of a `width` x `height` texture into `staging`
/// did, given the answer `r` and what `TextureReadbackLayout::new` answers
/// (`layout`). On success: the staging buffer is kept when it holds the
/// padded copy (same buffer, same read log), else replaced by a new buffer
/// of exactly that size; the new layout is remembered; and one copy of the
/// whole texture (rows from 0, padded pitch) into the staging buffer is
/// recorded. On a refused layout nothing changes.
pub open spec fn readback_encoded(
    before: TextureReadback,
    after: TextureReadback,
    copies_before: Seq<(wgpu::Buffer, TextureCopy)>,
    copies_after: Seq<(wgpu::Buffer, TextureCopy)>,
    r: Result<(), ReadbackError>,
    layout: Result<(u32, u32, u64, usize), GpuLayoutError>,
    width: u32,
    height: u32,
) -> bool {
    match (r, layout) {
        (Ok(()), Ok(t)) => {
            let reuse = before.has_buffer() && before.spec_capacity() >= t.2;
            &&& after.has_buffer()
            &&& after.spec_layout() matches Some(l) && l.wf() && l.spec_width() == width
                && l.spec_height() == height && l.spec_row_bytes() == t.0
                && l.spec_padded_row_bytes() == t.1 && l.spec_buffer_size() == t.2
                && l.spec_output_size() == t.3
            &&& after.spec_capacity() == if reuse {
                before.spec_capacity()
            } else {
                t.2
            }
            &&& reuse ==> after.spec_staging_handle() == before.spec_staging_handle()
                && after.spec_staging_reads() == before.spec_staging_reads()
            &&& !reuse ==> after.spec_staging_reads() == Seq::<Seq<u8>>::empty()
            &&& copies_after == copies_before.push(
                (
                    after.spec_staging_handle(),
                    TextureCopy { origin_y: 0, bytes_per_row: t.1, width, height },
                ),
            )
        },
        (Err(e), Err(f)) => e == ReadbackError::Layout(f) && after == before && copies_after
            == copies_before,
        _ => false,
    }
}

/// A staging buffer of `size` bytes can be created on `gpu` whenever `staging`
/// has to grow to hold it.
pub open spec fn staging_fits(gpu: &GpuDevice, staging: TextureReadback, size: u64) -> bool {
    (!staging.has_buffer() || staging.spec_capacity() < size) ==> buffer_request_size(size)
        <= gpu.spec_limits().max_buffer_size
}

proof fn lemma_padded_total_aligned(padded: u32, height: u32, total: u64)
    requires
        (padded as int) % 256 == 0,
        total == padded * height,
    ensures
        total % 4 == 0,
{
    let k = (padded as int) / 256;
    lemma_fundamental_div_mod(padded as int, 256);
    let m = 64 * k * height;
    assert(total == 4 * m) by (nonlinear_arith)
        requires
            padded == 256 * k,
            total == padded * height,
            m == 64 * k * height,
    ;
    lemma_fundamental_div_mod_converse(total as int, 4, m, 0);
}

/// Encode a tightly packed pixel texture into reusable staging storage.
///
/// The layout is checked first; a refused layout leaves `staging` and the
/// encoder untouched. Otherwise the staging buffer is reallocated exactly
/// when there is none or it is smaller than the padded copy, the copy of the
/// whole texture (rows from 0, padded row pitch) is recorded, and the new
/// layout is remembered. `requires` leaves out the staging sizes the device
/// refuses to allocate (which panic).
pub fn readback_texture_bytes(
    gpu: &GpuDevice,
    encoder: &mut GpuEncoder,
    texture: &wgpu::Texture,
    width: u32,
    height: u32,
    bytes_per_pixel: u32,
    label: &'static str,
    staging: &mut TextureReadback,
) -> (r: Result<(), ReadbackError>)
    requires
        old(staging).wf(),
        readback_layout_result(label, width, height, bytes_per_pixel) matches Ok(t) ==> staging_fits(
            gpu,
            *old(staging),
            t.2,
        ),
    ensures
        final(staging).wf(),
        readback_encoded(
            *old(staging),
            *final(staging),
            old(encoder).copies(),
            final(encoder).copies(),
            r,
            readback_layout_result(label, width, height, bytes_per_pixel),
            width,
            height,
        ),
{
    let layout = match TextureReadbackLayout::new(label, width, height, bytes_per_pixel) {
        Ok(l) => l,
        Err(e) => return Err(ReadbackError::Layout(e)),
    };
    proof {
        layout.lemma_layout_consistent();
        lemma_padded_total_aligned(
            layout.spec_padded_row_bytes(),
            layout.spec_height(),
            layout.spec_buffer_size(),
        );
    }
    if staging.buffer.is_none() || staging.capacity < layout.buffer_size() {
        staging.buffer = Some(ReadbackBuffer::new(gpu, label, layout.buffer_size()));
        staging.capacity = layout.buffer_size();
    }
    let buffer = match &staging.buffer {
        Some(b) => b.buffer(),
        None => return Err(ReadbackError::MissingTarget),
    };
    copy_texture_to_buffer(
        encoder,
        texture,
        0,
        buffer,
        layout.padded_row_bytes(),
        layout.width(),
        layout.height(),
    );
    staging.layout = Some(layout);
    Ok(())
}

/// Encode an RGBA8 texture copy into reusable staging storage.
pub fn readback_texture(
    gpu: &GpuDevice,
    encoder: &mut GpuEncoder,
    texture: &wgpu::Texture,
    width: u32,
    height: u32,
    staging: &mut TextureReadback,
) -> (r: Result<(), ReadbackError>)
    requires
        old(staging).wf(),
        readback_layout_result("RGBA8 Readback", width, height, 4) matches Ok(t) ==> staging_fits(
            gpu,
            *old(staging),
            t.2,
        ),
    ensures
        final(staging).wf(),
        readback_encoded(
            *old(staging),
            *final(staging),
            old(encoder).copies(),
            final(encoder).copies(),
            r,
            readback_layout_result("RGBA8 Readback", width, height, 4),
            width,
            height,
        ),
{
    readback_texture_bytes(gpu, encoder, texture, width, height, 4, "RGBA8 Readback", staging)
}

/// Map the most recently encoded copy and strip row padding.
///
/// `MissingTarget` comes exactly when no copy has been encoded (no layout
/// or no staging buffer). Otherwise the staging buffer (the buffer the
/// copy went into) is mapped, read and unmapped: the result is one of the
/// mapping errors, with nothing read, or exactly `output_size` bytes, the
/// content just appended to the staging buffer's read log with its row
/// padding stripped. The staging state is otherwise unchanged.
pub fn map_readback(gpu: &GpuDevice, staging: &mut TextureReadback) -> (r: Result<
    Vec<u8>,
    ReadbackError,
>)
    requires
        old(staging).wf(),
    ensures
        final(staging).wf(),
        final(staging).has_buffer() == old(staging).has_buffer(),
        final(staging).spec_capacity() == old(staging).spec_capacity(),
        final(staging).spec_layout() == old(staging).spec_layout(),
        final(staging).spec_staging_handle() == old(staging).spec_staging_handle(),
        (r == Err::<Vec<u8>, ReadbackError>(ReadbackError::MissingTarget)) <==> (
            old(staging).spec_layout() is None || !old(staging).has_buffer()),
        r matches Ok(pixels) ==> {
            let reads = final(staging).spec_staging_reads();
            &&& reads.len() == old(staging).spec_staging_reads().len() + 1
            &&& reads.drop_last() == old(staging).spec_staging_reads()
            &&& old(staging).spec_layout() matches Some(l) && rows_unpadded(
                l,
                reads.last(),
                pixels@,
            )
        },
        r is Err ==> final(staging).spec_staging_reads() == old(staging).spec_staging_reads(),
        r is Err && !(r matches Err(ReadbackError::MissingTarget)) ==> match r {
            Err(ReadbackError::PollFailed(_)) => true,
            Err(ReadbackError::MapFailed(_)) => true,
            Err(ReadbackError::CallbackDropped(_)) => true,
            Err(ReadbackError::MappedRangeUnavailable(_)) => true,
            _ => false,
        },
{
    let ghost before = *staging;
    let layout = match staging.layout {
        Some(l) => l,
        None => return Err(ReadbackError::MissingTarget),
    };
    let data = match &mut staging.buffer {
        Some(b) => b.read(gpu),
        None => return Err(ReadbackError::MissingTarget),
    };
    let data = match data {
        Ok(d) => d,
        Err(e) => return Err(e),
    };
    let len: usize = data.len();
    proof {
        let b = before.buffer->0;
        assert(data@.len() == b.spec_size());
        assert(b.spec_size() >= before.capacity >= layout.spec_buffer_size());
        assert(data@.len() == len);
    }
    let pixels = unpad_readback_rows(&layout, data.as_slice());
    assert(pixels is Ok);
    proof {
        let reads = staging.spec_staging_reads();
        assert(reads.drop_last() =~= before.spec_staging_reads());
        assert(reads.last() == data@);
    }
    pixels
}


/// A checked buffer size is the exact product of width, height and bytes
/// per element, given whenever all three are non-zero and the product fits
/// `u64`, and refused otherwise.
pub proof fn lemma_buffer_size_is_product(context: &'static str, width: u32, height: u32, bpe: u64)
    ensures
        buffer_size_result(context, width, height, bpe) is Ok <==> (bpe > 0 && width > 0 && height
            > 0 && width * height * bpe <= u64::MAX),
        buffer_size_result(context, width, height, bpe) matches Ok(v) ==> v == width * height * bpe,
{
}

/// A storage size is accepted, unchanged, exactly when it is within both
/// the buffer limit and the storage binding limit.
pub proof fn lemma_storage_size_within_limits(context: &'static str, size: u64, limits: DeviceLimits)
    ensures
        storage_size_result(context, size, limits) is Ok <==> (size <= limits.max_buffer_size
            && size <= limits.max_storage_buffer_binding_size),
        storage_size_result(context, size, limits) matches Ok(v) ==> v == size,
{
}

/// A texture extent is accepted exactly when both sides are non-zero and
/// neither exceeds the device's 2D dimension limit.
pub proof fn lemma_texture_extent_within_limits(
    context: &'static str,
    width: u32,
    height: u32,
    limits: DeviceLimits,
)
    ensures
        texture_extent_result(context, width, height, limits) is Ok <==> (width > 0 && height > 0
            && width <= limits.max_texture_dimension_2d && height
            <= limits.max_texture_dimension_2d),
{
}

/// An aligned row pitch is the least multiple of the alignment that holds
/// `width * bytes_per_pixel` bytes; it is given whenever the alignment is a
/// power of two, the pixel size non-zero and the pitch fits `u32`.
pub proof fn lemma_aligned_row_is_least_multiple(
    context: &'static str,
    width: u32,
    bytes_per_pixel: u32,
    alignment: u32,
)
    ensures
        aligned_row_result(context, width, bytes_per_pixel, alignment) matches Ok(v) ==> {
            &&& v % alignment == 0
            &&& width * bytes_per_pixel <= v < width * bytes_per_pixel + alignment
            &&& forall|m: int|
                #![trigger m % (alignment as int)]
                m >= width * bytes_per_pixel && m % (alignment as int) == 0 ==> v <= m
        },
        aligned_row_result(context, width, bytes_per_pixel, alignment) is Ok ==> is_pow2(
            alignment as nat,
        ) && bytes_per_pixel > 0,
        is_pow2(alignment as nat) && bytes_per_pixel > 0 && width * bytes_per_pixel + alignment
            <= u32::MAX + 1 ==> aligned_row_result(context, width, bytes_per_pixel, alignment) is Ok,
{
    if is_pow2(alignment as nat) {
        let k = choose|k: nat| pow2(k) == alignment as nat;
        lemma_pow2_pos(k);
        lemma_round_up_bounds(width * bytes_per_pixel, alignment as int);
    }
}

/// A readback layout has rows of exactly `width * bytes_per_pixel` bytes,
/// padded to the least multiple of 256 that holds them, a staging size of
/// one padded row per texel row, and an output of exactly the tight rows;
/// every extent in it is non-zero.
pub proof fn lemma_readback_layout_shape(
    context: &'static str,
    width: u32,
    height: u32,
    bytes_per_pixel: u32,
)
    ensures
        readback_layout_result(context, width, height, bytes_per_pixel) matches Ok(t) ==> {
            &&& width > 0 && height > 0 && bytes_per_pixel > 0
            &&& t.0 == width * bytes_per_pixel
            &&& t.1 % 256 == 0
            &&& t.0 <= t.1 < t.0 + 256
            &&& t.2 == t.1 * height
            &&& t.3 == width * height * bytes_per_pixel
        },
{
    lemma_round_up_bounds(width * bytes_per_pixel, 256);
    let padded = round_up(width * bytes_per_pixel, copy_row_alignment());
    if 0 <= padded <= u32::MAX {
        assert(padded * height <= u32::MAX * u32::MAX) by (nonlinear_arith)
            requires
                0 <= padded <= u32::MAX,
                height <= u32::MAX,
        ;
    }
}

} // verus!
