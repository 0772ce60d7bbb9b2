//! Boundary to `wgpu`: the library's handles on a device, a buffer and a
//! command encoder, and the trusted wrappers around the `wgpu` calls. The
//! wrappers (`#[verifier::external_body]`) are believed, not proved; the
//! handles' own methods are verified.
use vstd::prelude::*;
use wgpu::util::DeviceExt;

use crate::layout::DeviceLimits;

verus! {

/// A logical GPU device (`wgpu::Device`), carried through opaquely.
#[verifier::external_type_specification]
#[verifier::external_body]
pub struct ExDevice(wgpu::Device);

/// Reads `wgpu::Device::limits` and copies out the three limits the layout
/// checks use. Nothing is claimed about the values: they are whatever the
/// device was created with.
#[verifier::external_body]
pub(crate) fn device_limits(device: &wgpu::Device) -> DeviceLimits {
    let limits = device.limits();
    DeviceLimits {
        max_buffer_size: limits.max_buffer_size,
        max_storage_buffer_binding_size: limits.max_storage_buffer_binding_size,
        max_texture_dimension_2d: limits.max_texture_dimension_2d,
    }
}

/// Returns `wgpu::COPY_BYTES_PER_ROW_ALIGNMENT`, which wgpu-types defines as
/// the constant 256.
#[verifier::external_body]
pub(crate) fn copy_bytes_per_row_alignment() -> (r: u32)
    ensures
        r == 256,
{
    wgpu::COPY_BYTES_PER_ROW_ALIGNMENT
}

/// Failure of `wgpu::Device::poll`, carried through opaquely.
#[verifier::external_type_specification]
#[verifier::external_body]
pub struct ExPollError(wgpu::PollError);

/// Failure of `wgpu::BufferSlice::map_async`, carried through opaquely.
#[verifier::external_type_specification]
#[verifier::external_body]
pub struct ExBufferAsyncError(wgpu::BufferAsyncError);

/// `std::sync::mpsc::RecvError`, carried through opaquely.
#[verifier::external_type_specification]
#[verifier::external_body]
pub struct ExRecvError(std::sync::mpsc::RecvError);

/// A GPU buffer (`wgpu::Buffer`), carried through opaquely.
#[verifier::external_type_specification]
#[verifier::external_body]
pub struct ExBuffer(wgpu::Buffer);

/// A GPU texture (`wgpu::Texture`), carried through opaquely.
#[verifier::external_type_specification]
#[verifier::external_body]
pub struct ExTexture(wgpu::Texture);

/// A command encoder (`wgpu::CommandEncoder`), carried through opaquely.
#[verifier::external_type_specification]
#[verifier::external_body]
pub struct ExCommandEncoder(wgpu::CommandEncoder);

/// Failure of `wgpu::BufferSlice::get_mapped_range`, carried through opaquely.
#[verifier::external_type_specification]
#[verifier::external_body]
pub struct ExMapRangeError(wgpu::MapRangeError);

/// Bits of `wgpu::BufferUsages::MAP_READ`, which wgpu-types defines as
/// `1 << 0`.
#[verifier::external_body]
pub(crate) fn map_read_bits() -> (r: u32)
    ensures
        r == 1,
{
    wgpu::BufferUsages::MAP_READ.bits()
}

/// Bits of `wgpu::BufferUsages::COPY_DST`, which wgpu-types defines as
/// `1 << 3`.
#[verifier::external_body]
pub(crate) fn copy_dst_bits() -> (r: u32)
    ensures
        r == 8,
{
    wgpu::BufferUsages::COPY_DST.bits()
}

/// Bits of `wgpu::BufferUsages` (as wgpu-types numbers them: MAP_READ 1,
/// MAP_WRITE 2, COPY_SRC 4, COPY_DST 8, INDEX 16, VERTEX 32, UNIFORM 64,
/// STORAGE 128, INDIRECT 256, QUERY_RESOLVE 512, BLAS_INPUT 1024,
/// TLAS_INPUT 2048) that `wgpu::Device::create_buffer` accepts on every
/// device without optional features: a non-empty set of known flags, no
/// ray-tracing inputs, no indirect use, an index buffer not shared with
/// vertex/uniform/storage use, and mappable buffers used only for the copy
/// in the matching direction.
pub open spec fn usage_accepted(bits: u32) -> bool {
    &&& bits != 0
    &&& bits & !0xFFFu32 == 0
    &&& bits & 0xC00u32 == 0
    &&& bits & 0x100u32 == 0
    &&& (bits & 0x10u32 != 0 ==> bits & 0xE0u32 == 0)
    &&& (bits & 0x2u32 != 0 ==> bits & !0x6u32 == 0)
    &&& (bits & 0x1u32 != 0 ==> bits & !0x9u32 == 0)
}

/// A logical device together with the limits it was created with. Only
/// `GpuDevice::new` builds one, so the recorded limits are the device's.
pub struct GpuDevice {
    device: wgpu::Device,
    limits: DeviceLimits,
}

impl GpuDevice {
    /// The device's limits.
    pub closed spec fn spec_limits(&self) -> DeviceLimits {
        self.limits
    }

    /// Wrap `device`, reading its limits once.
    pub fn new(device: wgpu::Device) -> (r: Self) {
        let limits = device_limits(&device);
        GpuDevice { device, limits }
    }

    /// The device's limits.
    pub fn limits(&self) -> (r: DeviceLimits)
        ensures
            r == self.spec_limits(),
    {
        self.limits
    }

    /// The underlying `wgpu` device.
    pub fn raw(&self) -> &wgpu::Device {
        &self.device
    }
}

/// A GPU buffer together with the size and usage bits it was created with,
/// and what the library knows of its mapping: whether its mapped range has
/// been read since it was last unmapped, and every content read out of it,
/// oldest first. Only `create_buffer` and `create_buffer_init` build one.
pub struct GpuBuffer {
    buffer: wgpu::Buffer,
    size: u64,
    usage: u32,
    mapped: Ghost<bool>,
    reads: Ghost<Seq<Seq<u8>>>,
}

impl GpuBuffer {
    /// The `wgpu` buffer itself. Contracts compare it to tell which buffer
    /// a call was handed; nothing is known of it beyond that.
    pub closed spec fn spec_handle(&self) -> wgpu::Buffer {
        self.buffer
    }

    /// The contents read out of the buffer's mapped range, oldest first.
    pub closed spec fn spec_reads(&self) -> Seq<Seq<u8>> {
        self.reads@
    }

    /// The buffer's mapped range has been obtained and it has not been
    /// unmapped since, so the buffer is mapped.
    pub closed spec fn spec_mapped(&self) -> bool {
        self.mapped@
    }

    /// Size in bytes the buffer was created with.
    pub closed spec fn spec_size(&self) -> u64 {
        self.size
    }

    /// Usage bits the buffer was created with.
    pub closed spec fn spec_usage(&self) -> u32 {
        self.usage
    }

    /// Size in bytes the buffer was created with.
    pub fn size(&self) -> (r: u64)
        ensures
            r == self.spec_size(),
    {
        self.size
    }

    /// Usage bits the buffer was created with.
    pub fn usage(&self) -> (r: u32)
        ensures
            r == self.spec_usage(),
    {
        self.usage
    }

    /// The underlying `wgpu` buffer.
    pub fn raw(&self) -> &wgpu::Buffer {
        &self.buffer
    }
}

/// One texture-to-buffer copy recorded into an encoder: the first texel row
/// copied, the row pitch in the buffer, and the copied extent.
#[derive(Debug, Clone, Copy, PartialEq, Eq, Structural)]
pub struct TextureCopy {
    pub origin_y: u32,
    pub bytes_per_row: u32,
    pub width: u32,
    pub height: u32,
}

/// A command encoder together with the texture copies the library recorded
/// into it, in order, each with the buffer it copies into.
pub struct GpuEncoder {
    encoder: wgpu::CommandEncoder,
    copies: Ghost<Seq<(wgpu::Buffer, TextureCopy)>>,
}

impl GpuEncoder {
    /// Texture copies recorded through the library, oldest first, each with
    /// its destination buffer (`GpuBuffer::spec_handle`).
    pub closed spec fn copies(&self) -> Seq<(wgpu::Buffer, TextureCopy)> {
        self.copies@
    }

    /// Wrap a fresh encoder; nothing has been recorded through it yet.
    pub fn new(encoder: wgpu::CommandEncoder) -> (r: Self)
        ensures
            r.copies() == Seq::<(wgpu::Buffer, TextureCopy)>::empty(),
    {
        GpuEncoder { encoder, copies: Ghost(Seq::empty()) }
    }

    /// Give the underlying encoder back (to record more passes or finish it).
    pub fn into_inner(self) -> wgpu::CommandEncoder {
        self.encoder
    }
}

/// Calls `wgpu::Device::create_buffer` with the given label, size and usage
/// bits, not mapped at creation, and records size and usage next to the
/// buffer. `requires` leaves out the requests wgpu-core's `create_buffer`
/// rejects (a size above the device's `max_buffer_size`, usage bits outside
/// `usage_accepted`), which wgpu's default error handler turns into a panic.
/// Not stated: a lost device or an exhausted allocator is reported the same
/// way; neither depends on the arguments.
#[verifier::external_body]
pub(crate) fn create_buffer(gpu: &GpuDevice, label: &str, size: u64, usage: u32) -> (r: GpuBuffer)
    requires
        size <= gpu.spec_limits().max_buffer_size,
        usage_accepted(usage),
    ensures
        r.spec_size() == size,
        r.spec_usage() == usage,
        !r.spec_mapped(),
        r.spec_reads() == Seq::<Seq<u8>>::empty(),
{
    let usages = wgpu::BufferUsages::from_bits_retain(usage);
    let desc = wgpu::BufferDescriptor { label: Some(label), size, usage: usages, mapped_at_creation: false };
    let buffer = gpu.device.create_buffer(&desc);
    GpuBuffer { buffer, size, usage, mapped: Ghost(false), reads: Ghost(Seq::empty()) }
}

/// Size of a buffer created from `len` bytes of initial contents: 0 for no
/// contents, otherwise `len` rounded up to a multiple of 4 (and at least 4).
pub open spec fn init_buffer_size(len: nat) -> nat {
    if len == 0 {
        0
    } else {
        ((len + 3) / 4 * 4) as nat
    }
}

/// Calls `wgpu::util::DeviceExt::create_buffer_init` with the given label,
/// contents and usage bits, and records `size` and usage next to the
/// buffer. wgpu creates the buffer with `init_buffer_size(contents.len())`
/// bytes, which `requires` asks `size` to be, and copies the contents to its
/// start. `requires` leaves out the requests `create_buffer` rejects, as for
/// `create_buffer`; a lost device or an exhausted allocator are not stated.
#[verifier::external_body]
pub(crate) fn create_buffer_init(
    gpu: &GpuDevice,
    label: &str,
    contents: &[u8],
    usage: u32,
    size: u64,
) -> (r: GpuBuffer)
    requires
        size == init_buffer_size(contents@.len()),
        size <= gpu.spec_limits().max_buffer_size,
        usage_accepted(usage),
    ensures
        r.spec_size() == size,
        r.spec_usage() == usage,
        !r.spec_mapped(),
        r.spec_reads() == Seq::<Seq<u8>>::empty(),
{
    let usages = wgpu::BufferUsages::from_bits_retain(usage);
    let desc = wgpu::util::BufferInitDescriptor { label: Some(label), contents, usage: usages };
    let buffer = gpu.device.create_buffer_init(&desc);
    GpuBuffer { buffer, size, usage, mapped: Ghost(false), reads: Ghost(Seq::empty()) }
}

/// Calls `wgpu::CommandEncoder::copy_texture_to_buffer` to copy the region of
/// mip level 0 of `texture` that starts at row `origin_y` and spans
/// `width x height` texels into `buffer` at offset 0, with the given row
/// pitch. It records one command, which the encoder's copy log shows; wgpu
/// validates it when the encoder is finished.
#[verifier::external_body]
pub(crate) fn copy_texture_to_buffer(
    encoder: &mut GpuEncoder,
    texture: &wgpu::Texture,
    origin_y: u32,
    buffer: &GpuBuffer,
    bytes_per_row: u32,
    width: u32,
    height: u32,
)
    ensures
        final(encoder).copies() == old(encoder).copies().push(
            (buffer.spec_handle(), TextureCopy { origin_y, bytes_per_row, width, height }),
        ),
{
    let origin = wgpu::Origin3d { x: 0, y: origin_y, z: 0 };
    let aspect = wgpu::TextureAspect::All;
    let source = wgpu::TexelCopyTextureInfo { texture, mip_level: 0, origin, aspect };
    let layout =
        wgpu::TexelCopyBufferLayout { offset: 0, bytes_per_row: Some(bytes_per_row), rows_per_image: Some(height) };
    let size = wgpu::Extent3d { width, height, depth_or_array_layers: 1 };
    let target = wgpu::TexelCopyBufferInfo { buffer: &buffer.buffer, layout };
    encoder.encoder.copy_texture_to_buffer(source, target, size);
}

/// Calls `wgpu::BufferSlice::map_async` to map the whole buffer for
/// reading, with a callback that only forwards its outcome into the
/// returned channel. `requires` leaves out what its documentation says
/// panics: a buffer without MAP_READ usage, or a length that is not a
/// multiple of 4. A buffer that is already mapped or has a map pending gets
/// an error through the callback. Nothing is claimed about when or with
/// what the outcome arrives.
#[verifier::external_body]
pub(crate) fn request_map_read(buffer: &GpuBuffer) -> std::sync::mpsc::Receiver<
    Result<(), wgpu::BufferAsyncError>,
>
    requires
        buffer.spec_usage() & 1u32 != 0,
        buffer.spec_size() % 4 == 0,
        buffer.spec_size() > 0,
{
    let (tx, rx) = std::sync::mpsc::channel();
    buffer.buffer.slice(..).map_async(wgpu::MapMode::Read, move |result| {
        let _ = tx.send(result);
    });
    rx
}

/// Calls `wgpu::Device::poll`, waiting until all submitted work has
/// finished, and drops the poll status. Whether it fails depends on the
/// device; nothing is claimed.
#[verifier::external_body]
pub(crate) fn poll_wait(gpu: &GpuDevice) -> Result<(), wgpu::PollError> {
    match gpu.device.poll(wgpu::PollType::wait_indefinitely()) {
        Ok(_) => Ok(()),
        Err(e) => Err(e),
    }
}

/// Calls `wgpu::BufferSlice::get_mapped_range` on the whole buffer and copies
/// the mapped bytes out. The view covers the whole slice, so a successful
/// read has exactly the buffer's size; the bytes themselves come from the
/// GPU and are not claimed. wgpu-core hands out a range only for a buffer
/// that is mapped (or mapped at creation), so after a success the buffer is
/// known to be mapped, and the bytes are appended to its read log; a failure
/// changes nothing. The `wgpu` buffer itself is not replaced.
#[verifier::external_body]
pub(crate) fn mapped_bytes(buffer: &mut GpuBuffer) -> (r: Result<Vec<u8>, wgpu::MapRangeError>)
    ensures
        final(buffer).spec_handle() == old(buffer).spec_handle(),
        final(buffer).spec_size() == old(buffer).spec_size(),
        final(buffer).spec_usage() == old(buffer).spec_usage(),
        r matches Ok(b) ==> b@.len() == old(buffer).spec_size() && final(buffer).spec_mapped()
            && final(buffer).spec_reads() == old(buffer).spec_reads().push(b@),
        r is Err ==> final(buffer).spec_mapped() == old(buffer).spec_mapped()
            && final(buffer).spec_reads() == old(buffer).spec_reads(),
{
    match buffer.buffer.slice(..).get_mapped_range() {
        Ok(view) => Ok(view.to_vec()),
        Err(e) => Err(e),
    }
}

/// Calls `wgpu::Buffer::unmap`. wgpu-core refuses to unmap a buffer that is
/// not mapped and wgpu's default error handler panics on that, so
/// `requires` asks for a buffer whose mapped range the library has read.
/// Afterwards the buffer is not mapped; nothing else changes.
#[verifier::external_body]
pub(crate) fn unmap(buffer: &mut GpuBuffer)
    requires
        old(buffer).spec_mapped(),
    ensures
        final(buffer).spec_handle() == old(buffer).spec_handle(),
        final(buffer).spec_reads() == old(buffer).spec_reads(),
        final(buffer).spec_size() == old(buffer).spec_size(),
        final(buffer).spec_usage() == old(buffer).spec_usage(),
        !final(buffer).spec_mapped(),
{
    buffer.buffer.unmap();
}

/// Renders a `wgpu::PollError` with its derived `Debug` impl. Nothing is
/// claimed about the text.
#[verifier::external_body]
pub(crate) fn poll_error_text(e: &wgpu::PollError) -> String {
    format!("{e:?}")
}

/// Renders a `wgpu::BufferAsyncError` with its derived `Debug` impl; the
/// type is a field-less struct, so the text is its name.
#[verifier::external_body]
pub(crate) fn async_error_text(e: &wgpu::BufferAsyncError) -> (r: String)
    ensures
        r@ == "BufferAsyncError"@,
{
    format!("{e:?}")
}

/// Renders a `wgpu::MapRangeError` with its `Display` impl, which wgpu
/// writes as "Buffer view error: " followed by a private description.
#[verifier::external_body]
pub(crate) fn map_range_error_text(e: &wgpu::MapRangeError) -> (r: String)
    ensures
        "Buffer view error: "@.is_prefix_of(r@),
{
    format!("{e}")
}

} // verus!
