//! Object-id picking: ids handed out per drawn object, the map from id back
//! to the object's path / size / kind, and the one-frame-latency GPU readback
//! of the id under the cursor.
use std::collections::HashMap;
use vstd::prelude::*;

use crate::gpu::{copy_texture_to_buffer, GpuDevice, GpuEncoder, TextureCopy};
use crate::stdext::str_eq;
use crate::hashing::{canonical_id, canonical_object_id};
use crate::layout::{
    buffer_request_size, readback_layout_result, GpuLayoutError, ReadbackBuffer,
    ReadbackError,
    TextureReadbackLayout,
};

verus! {

/// Combined pick info for a single object id.
#[derive(Clone, Debug)]
pub struct PickInfo {
    pub path: String,
    pub size: u64,
    pub is_dir: bool,
}

/// Object-id picking state (async readback with one frame of latency).
pub struct PickingState {
    /// Readback buffer (copies an entire row for alignment).
    buffer: Option<ReadbackBuffer>,
    buffer_size: u32,
    /// Pending pick request (pixel coordinates).
    pub pending_pick: Option<(u32, u32)>,
    /// Pending pixel x, read back after the copy has been submitted.
    pending_px: Option<u32>,
    /// Last texture width.
    texture_width: u32,
    /// Last successfully read id.
    pub hovered_id: u32,
    /// Object id to pick info; entries are reused across frames.
    pub id_map: HashMap<u32, PickInfo>,
    /// Next available object id (0 is the background).
    pub next_id: u32,
}

/// Little-endian value of four bytes.
pub open spec fn le_u32(b: Seq<u8>) -> int {
    b[0] + 256 * b[1] + 65536 * b[2] + 16777216 * b[3]
}

/// What decoding the texel at column `px` of a mapped id row gives: the
/// little-endian `u32` at byte `4 * px` with its selection bit dropped, or
/// `MappedRangeTooSmall` when the row is too short to hold it.
pub open spec fn pick_texel(data: Seq<u8>, px: u32) -> Result<u32, ReadbackError> {
    let start = 4 * px;
    let end = 4 * px + 4;
    if data.len() >= end {
        Ok(canonical_id(le_u32(data.subrange(start, end)) as u32))
    } else {
        Err(ReadbackError::MappedRangeTooSmall { expected: end as usize, actual: data.len() as usize })
    }
}

/// Decode the object id at column `px` of a mapped id-texture row.
pub fn decode_pick_texel(data: &[u8], px: u32) -> (r: Result<u32, ReadbackError>)
    requires
        4 * px + 4 <= usize::MAX,
    ensures
        r == pick_texel(data@, px),
{
    let offset = px as usize * 4;
    let end = offset + 4;
    if data.len() < end {
        return Err(ReadbackError::MappedRangeTooSmall { expected: end, actual: data.len() });
    }
    let b0 = data[offset] as u32;
    let b1 = data[offset + 1] as u32;
    let b2 = data[offset + 2] as u32;
    let b3 = data[offset + 3] as u32;
    let raw = b0 + 256 * b1 + 65536 * b2 + 16777216 * b3;
    assert(data@.subrange(offset as int, end as int) =~= seq![
        data@[offset as int],
        data@[offset + 1],
        data@[offset + 2],
        data@[offset + 3],
    ]);
    Ok(canonical_object_id(raw))
}

/// Context string used for the id readback layout.
pub open spec fn id_readback_layout(width: u32) -> Result<(u32, u32, u64, usize), GpuLayoutError> {
    readback_layout_result("object ID readback", width, 1, 4)
}

impl PickingState {
    /// The readback buffer, once allocated, is a readback buffer (mapped-read
    /// usage, a size that is a multiple of 4). Every function keeps this.
    pub closed spec fn wf(self) -> bool {
        self.buffer matches Some(b) ==> b.wf()
    }

    /// The id map as a mathematical map.
    pub closed spec fn ids(self) -> Map<u32, PickInfo> {
        self.id_map@
    }

    /// Next id `alloc_id` hands out.
    pub closed spec fn spec_next_id(self) -> u32 {
        self.next_id
    }

    /// Last successfully read id.
    pub closed spec fn spec_hovered_id(self) -> u32 {
        self.hovered_id
    }

    /// Pick request waiting to be submitted.
    pub closed spec fn spec_pending_pick(self) -> Option<(u32, u32)> {
        self.pending_pick
    }

    /// Whether the readback buffer has been allocated.
    pub closed spec fn has_buffer(self) -> bool {
        self.buffer is Some
    }

    /// Size in bytes of the readback buffer.
    pub closed spec fn spec_buffer_size(self) -> u32 {
        self.buffer_size
    }

    /// The readback buffer's `wgpu` buffer (meaningful once one exists).
    pub closed spec fn spec_buffer_handle(self) -> wgpu::Buffer {
        self.buffer->0.spec_handle()
    }

    /// The rows read out of the readback buffer, oldest first (meaningful
    /// once one exists).
    pub closed spec fn spec_buffer_reads(self) -> Seq<Seq<u8>> {
        self.buffer->0.spec_reads()
    }

    /// Pixel column whose id is waiting to be read back.
    pub closed spec fn spec_pending_px(self) -> Option<u32> {
        self.pending_px
    }

    /// Width of the id texture of the last submitted readback.
    pub closed spec fn spec_texture_width(self) -> u32 {
        self.texture_width
    }

    pub fn new() -> (r: Self)
        ensures
            r.wf(),
            !r.has_buffer(),
            r.spec_buffer_size() == 0,
            r.spec_pending_pick() is None,
            r.spec_pending_px() is None,
            r.spec_texture_width() == 0,
            r.spec_hovered_id() == 0,
            r.ids() == Map::<u32, PickInfo>::empty(),
            r.spec_next_id() == 1,
    {
        PickingState {
            buffer: None,
            buffer_size: 0,
            pending_pick: None,
            pending_px: None,
            texture_width: 0,
            hovered_id: 0,
            id_map: HashMap::new(),
            next_id: 1,
        }
    }

    /// Reset the id counter for a new frame. The id map is kept: entries are
    /// reused by `alloc_id` when traversal order is stable.
    pub fn reset_frame(&mut self)
        ensures
            final(self).wf() == old(self).wf(),
            final(self).spec_next_id() == 1,
            final(self).ids() == old(self).ids(),
            final(self).spec_hovered_id() == old(self).spec_hovered_id(),
            final(self).spec_pending_pick() == old(self).spec_pending_pick(),
    {
        self.next_id = 1;
    }

    /// Allocate the next object id and map it to `path` with the given size
    /// and kind. When the slot already holds the same path, that path is
    /// kept instead of being copied again.
    pub fn alloc_id(&mut self, path: &str, size: u64, is_dir: bool) -> (r: u32)
        requires
            old(self).spec_next_id() < u32::MAX,
        ensures
            final(self).wf() == old(self).wf(),
            r == old(self).spec_next_id(),
            final(self).spec_next_id() == old(self).spec_next_id() + 1,
            final(self).ids() == old(self).ids().insert(r, final(self).ids()[r]),
            final(self).ids()[r].path@ == path@,
            final(self).ids()[r].size == size,
            final(self).ids()[r].is_dir == is_dir,
            final(self).spec_hovered_id() == old(self).spec_hovered_id(),
            final(self).spec_pending_pick() == old(self).spec_pending_pick(),
    {
        let id = self.next_id;
        self.next_id = self.next_id + 1;
        let info = match self.id_map.remove(&id) {
            Some(prev) => {
                if str_eq(prev.path.as_str(), path) {
                    PickInfo { path: prev.path, size, is_dir }
                } else {
                    PickInfo { path: path.to_owned(), size, is_dir }
                }
            },
            None => PickInfo { path: path.to_owned(), size, is_dir },
        };
        self.id_map.insert(id, info);
        assert(self.id_map@ =~= old(self).id_map@.insert(id, info));
        id
    }

    /// Request a hover pick at pixel coordinates (call on mouse move).
    pub fn request_pick(&mut self, x: u32, y: u32)
        ensures
            final(self).wf() == old(self).wf(),
            final(self).spec_pending_pick() == Some((x, y)),
            final(self).ids() == old(self).ids(),
            final(self).spec_next_id() == old(self).spec_next_id(),
            final(self).spec_hovered_id() == old(self).spec_hovered_id(),
    {
        self.pending_pick = Some((x, y));
    }

    /// Look up the path for an object id (after dropping the selection bit);
    /// the background id 0 has none.
    pub fn path_for_id(&self, id: u32) -> (r: Option<&String>)
        ensures
            match r {
                Some(p) => canonical_id(id) != 0 && self.ids().contains_key(canonical_id(id)) && *p
                    == self.ids()[canonical_id(id)].path,
                None => canonical_id(id) == 0 || !self.ids().contains_key(canonical_id(id)),
            },
    {
        let id = canonical_object_id(id);
        if id == 0 {
            return None;
        }
        match self.id_map.get(&id) {
            Some(info) => Some(&info.path),
            None => None,
        }
    }

    /// Look up an object id whose entry has `path` (reverse lookup). When
    /// several ids share the path, which one is returned depends on the
    /// map's iteration order.
    pub fn id_for_path(&self, path: &str) -> (r: Option<u32>)
        ensures
            match r {
                Some(id) => self.ids().contains_key(id) && self.ids()[id].path@ == path@,
                None => forall|id: u32|
                    #[trigger] self.ids().contains_key(id) ==> self.ids()[id].path@ != path@,
            },
    {
        let ghost m = self.ids();
        for entry in it: self.id_map.iter()
            invariant
                m == self.ids(),
                forall|j: int|
                    0 <= j < it.index() ==> (*(#[trigger] it.seq()[j]).1).path@ != path@,
        {
            let (id, info) = entry;
            if str_eq(info.path.as_str(), path) {
                return Some(*id);
            }
        }
        None
    }

    /// Look up the file size for an object id (after dropping the selection bit).
    pub fn size_for_id(&self, id: u32) -> (r: Option<u64>)
        ensures
            r == if self.ids().contains_key(canonical_id(id)) {
                Some(self.ids()[canonical_id(id)].size)
            } else {
                None::<u64>
            },
    {
        match self.id_map.get(&canonical_object_id(id)) {
            Some(info) => Some(info.size),
            None => None,
        }
    }

    /// Look up the directory flag for an object id (after dropping the selection bit).
    pub fn is_dir_for_id(&self, id: u32) -> (r: Option<bool>)
        ensures
            r == if self.ids().contains_key(canonical_id(id)) {
                Some(self.ids()[canonical_id(id)].is_dir)
            } else {
                None::<bool>
            },
    {
        match self.id_map.get(&canonical_object_id(id)) {
            Some(info) => Some(info.is_dir),
            None => None,
        }
    }

    /// Full pick info for an object id; the background id 0 has none.
    pub fn info_for_id(&self, id: u32) -> (r: Option<&PickInfo>)
        ensures
            match r {
                Some(info) => canonical_id(id) != 0 && self.ids().contains_key(canonical_id(id))
                    && *info == self.ids()[canonical_id(id)],
                None => canonical_id(id) == 0 || !self.ids().contains_key(canonical_id(id)),
            },
    {
        let id = canonical_object_id(id);
        if id == 0 {
            return None;
        }
        self.id_map.get(&id)
    }

    /// Ensure the readback buffer exists and holds one padded row of a
    /// `width`-texel RGBA id texture; it is reallocated only when missing or
    /// too small. `requires` leaves out the row sizes the device refuses to
    /// allocate (which panic).
    pub fn ensure_readback(&mut self, gpu: &GpuDevice, width: u32) -> (r: Result<
        (),
        GpuLayoutError,
    >)
        requires
            old(self).wf(),
            id_readback_layout(width) matches Ok(t) ==> ((!old(self).has_buffer()
                || old(self).spec_buffer_size() < t.1) ==> buffer_request_size(t.1 as u64)
                <= gpu.spec_limits().max_buffer_size),
        ensures
            final(self).wf(),
            final(self).ids() == old(self).ids(),
            final(self).spec_next_id() == old(self).spec_next_id(),
            final(self).spec_hovered_id() == old(self).spec_hovered_id(),
            final(self).spec_pending_pick() == old(self).spec_pending_pick(),
            final(self).spec_pending_px() == old(self).spec_pending_px(),
            match id_readback_layout(width) {
                Err(e) => r == Err::<(), GpuLayoutError>(e) && final(self).has_buffer() == old(self).has_buffer() && final(self).spec_buffer_size() == old(self).spec_buffer_size(),
                Ok(t) => r is Ok && final(self).has_buffer() && final(self).spec_buffer_size() == if !old(self).has_buffer() || old(self).spec_buffer_size() < t.1 {
                    t.1
                } else {
                    old(self).spec_buffer_size()
                },
            },
            old(self).has_buffer() && (id_readback_layout(width) matches Ok(t) ==> old(self).spec_buffer_size() >= t.1)
                ==> final(self).spec_buffer_handle() == old(self).spec_buffer_handle()
                && final(self).spec_buffer_reads() == old(self).spec_buffer_reads(),
    {
        let layout = match TextureReadbackLayout::new("object ID readback", width, 1, 4) {
            Ok(l) => l,
            Err(e) => return Err(e),
        };
        proof {
            layout.lemma_layout_consistent();
        }
        let bytes_per_row = layout.padded_row_bytes();
        if self.buffer.is_none() || self.buffer_size < bytes_per_row {
            self.buffer = Some(ReadbackBuffer::new(gpu, "ID Readback", bytes_per_row as u64));
            self.buffer_size = bytes_per_row;
        }
        Ok(())
    }

    /// Record the copy of the id-texture row under the pending pick (call
    /// during render, after the object-id pass). The pending pick is always
    /// consumed; a pick outside the texture is dropped silently. When the
    /// copy is recorded it is row `py` of the texture, the full texture
    /// width, one row high, with the padded row pitch; otherwise the encoder
    /// is left as it was.
    pub fn submit_readback(
        &mut self,
        encoder: &mut GpuEncoder,
        id_texture: &wgpu::Texture,
        tex_size: (u32, u32),
    ) -> (r: Result<(), ReadbackError>)
        ensures
            final(self).wf() == old(self).wf(),
            final(self).spec_pending_pick() is None,
            final(self).ids() == old(self).ids(),
            final(self).spec_next_id() == old(self).spec_next_id(),
            final(self).spec_hovered_id() == old(self).spec_hovered_id(),
            final(self).has_buffer() == old(self).has_buffer(),
            final(self).spec_buffer_size() == old(self).spec_buffer_size(),
            final(self).spec_buffer_handle() == old(self).spec_buffer_handle(),
            final(self).spec_buffer_reads() == old(self).spec_buffer_reads(),
            match old(self).spec_pending_pick() {
                None => r is Ok && final(self).spec_pending_px() == old(self).spec_pending_px()
                    && final(encoder).copies() == old(encoder).copies(),
                Some((px, py)) => if px >= tex_size.0 || py >= tex_size.1 {
                    r is Ok && final(self).spec_pending_px() == old(self).spec_pending_px()
                        && final(encoder).copies() == old(encoder).copies()
                } else {
                    match id_readback_layout(tex_size.0) {
                        Err(e) => r == Err::<(), ReadbackError>(ReadbackError::Layout(e))
                            && final(self).spec_pending_px() == old(self).spec_pending_px()
                            && final(encoder).copies() == old(encoder).copies(),
                        Ok(t) => if old(self).spec_buffer_size() < t.1 {
                            r == Err::<(), ReadbackError>(
                                ReadbackError::StagingBufferTooSmall {
                                    required: t.1 as u64,
                                    capacity: old(self).spec_buffer_size() as u64,
                                },
                            ) && final(self).spec_pending_px() == old(self).spec_pending_px()
                                && final(encoder).copies() == old(encoder).copies()
                        } else if !old(self).has_buffer() {
                            r == Err::<(), ReadbackError>(ReadbackError::MissingTarget)
                                && final(self).spec_pending_px() == old(self).spec_pending_px()
                                && final(encoder).copies() == old(encoder).copies()
                        } else {
                            &&& r is Ok
                            &&& final(self).spec_pending_px() == Some(px)
                            &&& final(self).spec_texture_width() == tex_size.0
                            &&& final(encoder).copies() == old(encoder).copies().push(
                                (
                                    final(self).spec_buffer_handle(),
                                    TextureCopy {
                                        origin_y: py,
                                        bytes_per_row: t.1,
                                        width: tex_size.0,
                                        height: 1,
                                    },
                                ),
                            )
                        },
                    }
                },
            },
    {
        let (px, py) = match self.pending_pick.take() {
            Some(coords) => coords,
            None => return Ok(()),
        };
        if px >= tex_size.0 || py >= tex_size.1 {
            return Ok(());
        }
        let layout = match TextureReadbackLayout::new("object ID readback", tex_size.0, 1, 4) {
            Ok(l) => l,
            Err(e) => return Err(ReadbackError::Layout(e)),
        };
        let bytes_per_row = layout.padded_row_bytes();
        if self.buffer_size < bytes_per_row {
            return Err(
                ReadbackError::StagingBufferTooSmall {
                    required: bytes_per_row as u64,
                    capacity: self.buffer_size as u64,
                },
            );
        }
        let buf = match &self.buffer {
            Some(b) => b.buffer(),
            None => return Err(ReadbackError::MissingTarget),
        };
        copy_texture_to_buffer(encoder, id_texture, py, buf, bytes_per_row, tex_size.0, 1);
        self.texture_width = tex_size.0;
        self.pending_px = Some(px);
        Ok(())
    }

    /// Read the pick result (call after submitting the encoder that recorded
    /// `submit_readback`). The pending pixel is always consumed. Without a
    /// readback buffer this is `MissingTarget`; a column whose byte offset
    /// does not fit `usize` is refused before anything is mapped; otherwise
    /// the row is mapped and the hovered id becomes the decoded texel at
    /// the pending column (`pick_texel`), or the mapping or decoding error
    /// is returned and the hovered id is kept.
    pub fn poll_result(&mut self, gpu: &GpuDevice) -> (r: Result<(), ReadbackError>)
        requires
            old(self).wf(),
        ensures
            final(self).wf(),
            final(self).spec_pending_px() is None,
            final(self).ids() == old(self).ids(),
            final(self).spec_next_id() == old(self).spec_next_id(),
            final(self).spec_pending_pick() == old(self).spec_pending_pick(),
            r is Err ==> final(self).spec_hovered_id() == old(self).spec_hovered_id(),
            final(self).has_buffer() == old(self).has_buffer(),
            final(self).spec_buffer_handle() == old(self).spec_buffer_handle(),
            !(r is Ok || r matches Err(ReadbackError::MappedRangeTooSmall { .. }))
                ==> final(self).spec_buffer_reads() == old(self).spec_buffer_reads(),
            match old(self).spec_pending_px() {
                None => r is Ok && final(self).spec_hovered_id() == old(self).spec_hovered_id()
                    && final(self).spec_buffer_reads() == old(self).spec_buffer_reads(),
                Some(px) => if !old(self).has_buffer() {
                    r == Err::<(), ReadbackError>(ReadbackError::MissingTarget)
                } else if 4 * px > usize::MAX {
                    r == Err::<(), ReadbackError>(
                        ReadbackError::Layout(
                            GpuLayoutError::ValueTooLarge {
                                context: "object ID readback offset",
                                value: (4 * px) as u64,
                                target: "usize",
                            },
                        ),
                    )
                } else if 4 * px + 4 > usize::MAX {
                    r == Err::<(), ReadbackError>(
                        ReadbackError::Layout(
                            GpuLayoutError::ValueTooLarge {
                                context: "object ID readback end",
                                value: (4 * px) as u64,
                                target: "usize",
                            },
                        ),
                    )
                } else {
                    &&& !(r matches Err(ReadbackError::MissingTarget))
                    &&& !(r matches Err(ReadbackError::Layout(_)))
                    &&& (r is Ok || r matches Err(ReadbackError::MappedRangeTooSmall { .. }))
                        ==> {
                        let reads = final(self).spec_buffer_reads();
                        &&& reads.len() == old(self).spec_buffer_reads().len() + 1
                        &&& reads.drop_last() == old(self).spec_buffer_reads()
                        &&& match pick_texel(reads.last(), px) {
                            Ok(id) => r is Ok && final(self).spec_hovered_id() == id,
                            Err(e) => r == Err::<(), ReadbackError>(e),
                        }
                    }
                    &&& !(r is Ok || r matches Err(ReadbackError::MappedRangeTooSmall { .. }))
                        ==> final(self).spec_buffer_reads() == old(self).spec_buffer_reads()
                },
            },
    {
        let px = match self.pending_px {
            Some(px) => px,
            None => return Ok(()),
        };
        let result = self.read_pixel(gpu, px);
        self.pending_px = None;
        let id = match result {
            Ok(id) => id,
            Err(e) => return Err(e),
        };
        self.hovered_id = id;
        Ok(())
    }

    /// Map the readback buffer and decode the texel at column `px`.
    fn read_pixel(&mut self, gpu: &GpuDevice, px: u32) -> (r: Result<u32, ReadbackError>)
        requires
            old(self).wf(),
        ensures
            final(self).wf(),
            final(self).ids() == old(self).ids(),
            final(self).spec_next_id() == old(self).spec_next_id(),
            final(self).spec_hovered_id() == old(self).spec_hovered_id(),
            final(self).spec_pending_pick() == old(self).spec_pending_pick(),
            final(self).spec_pending_px() == old(self).spec_pending_px(),
            final(self).has_buffer() == old(self).has_buffer(),
            final(self).spec_buffer_size() == old(self).spec_buffer_size(),
            final(self).spec_texture_width() == old(self).spec_texture_width(),
            final(self).spec_buffer_handle() == old(self).spec_buffer_handle(),
            !old(self).has_buffer() ==> r == Err::<u32, ReadbackError>(ReadbackError::MissingTarget),
            old(self).has_buffer() && 4 * px > usize::MAX ==> r == Err::<u32, ReadbackError>(
                ReadbackError::Layout(
                    GpuLayoutError::ValueTooLarge {
                        context: "object ID readback offset",
                        value: (4 * px) as u64,
                        target: "usize",
                    },
                ),
            ),
            old(self).has_buffer() && 4 * px <= usize::MAX && 4 * px + 4 > usize::MAX ==> r == Err::<
                u32,
                ReadbackError,
            >(
                ReadbackError::Layout(
                    GpuLayoutError::ValueTooLarge {
                        context: "object ID readback end",
                        value: (4 * px) as u64,
                        target: "usize",
                    },
                ),
            ),
            old(self).has_buffer() && 4 * px + 4 <= usize::MAX ==> {
                &&& !(r matches Err(ReadbackError::MissingTarget))
                &&& !(r matches Err(ReadbackError::Layout(_)))
                &&& (r is Ok || r matches Err(ReadbackError::MappedRangeTooSmall { .. }))
                    ==> {
                    let reads = final(self).spec_buffer_reads();
                    &&& reads.len() == old(self).spec_buffer_reads().len() + 1
                    &&& reads.drop_last() == old(self).spec_buffer_reads()
                    &&& pick_texel(reads.last(), px) == r
                }
                &&& !(r is Ok || r matches Err(ReadbackError::MappedRangeTooSmall { .. }))
                    ==> final(self).spec_buffer_reads() == old(self).spec_buffer_reads()
            },
            !old(self).has_buffer() || 4 * px + 4 > usize::MAX ==> final(self).spec_buffer_reads()
                == old(self).spec_buffer_reads(),
    {
        if self.buffer.is_none() {
            return Err(ReadbackError::MissingTarget);
        }
        let offset_u64 = px as u64 * 4;
        if offset_u64 > usize::MAX as u64 {
            return Err(
                ReadbackError::Layout(
                    GpuLayoutError::ValueTooLarge {
                        context: "object ID readback offset",
                        value: offset_u64,
                        target: "usize",
                    },
                ),
            );
        }
        let offset = offset_u64 as usize;
        let end = match offset.checked_add(4) {
            Some(e) => e,
            None => {
                return Err(
                    ReadbackError::Layout(
                        GpuLayoutError::ValueTooLarge {
                            context: "object ID readback end",
                            value: offset_u64,
                            target: "usize",
                        },
                    ),
                );
            },
        };
        let read = match &mut self.buffer {
            Some(b) => b.read(gpu),
            None => return Err(ReadbackError::MissingTarget),
        };
        let data = match read {
            Ok(d) => d,
            Err(e) => return Err(e),
        };
        let r = decode_pick_texel(data.as_slice(), px);
        assert(pick_texel(data@, px) == r);
        r
    }
}

impl Default for PickingState {
    fn default() -> (r: Self)
        ensures
            r.wf(),
            r.ids() == Map::<u32, PickInfo>::empty(),
            r.spec_next_id() == 1,
            r.spec_hovered_id() == 0,
            r.spec_pending_pick() is None,
    {
        Self::new()
    }
}


/// Decoding a texel succeeds exactly when the row holds the four bytes at
/// `4 * px`; the id is then below the selection bit and is the
/// little-endian value of those bytes with the selection bit cleared.
pub proof fn lemma_pick_texel_decodes(data: Seq<u8>, px: u32)
    ensures
        pick_texel(data, px) is Ok <==> data.len() >= 4 * px + 4,
        pick_texel(data, px) matches Ok(id) ==> id < 0x8000_0000 && id as int == le_u32(
            data.subrange(4 * px, 4 * px + 4),
        ) % 0x8000_0000,
{
    if data.len() >= 4 * px + 4 {
        let b = data.subrange(4 * px, 4 * px + 4);
        assert(0 <= le_u32(b) <= 0xFFFF_FFFF);
    }
}

} // verus!
