# squarebob

The verified core of squarebob, a GPU renderer that draws a scanned
directory tree as a field of cubes (rasterised or path traced).

- `src/` is the library, written in Verus. Apart from the trusted wrappers
  named below, every function there is proved by Verus against its
  contract: checked buffer/texture size arithmetic, the layout of a
  texture readback and the stripping of its row padding (`layout`), the
  path tracer's progressive accumulation (`accumulation`), the per-frame
  decisions of the wavefront dispatch and of a path-traced render
  (`frame`), wavefront tiling and tile-slot packing (`wavefront`), feature
  switches and sampling budgets (`features`, `sampling`, `pathguide`), the
  instance cache (`scene_cache`), object-id picking (`picking`), the
  material library and classification cache (`library`, `cache`,
  `materials`), the option catalogues (`modes`, `mapping`, `defaults`) and
  hashing (`hashing`). The calls into `wgpu`, `uuid` and the few
  unspecified `std` functions sit behind small trusted wrappers
  (`#[verifier::external_body]`) in `gpu.rs`, `uuids.rs` and `stdext.rs`,
  whose contracts are assumed, not proved; each is documented with what it
  assumes. What a GPU readback returns comes from the device: the
  contracts state into which buffer each texture copy is recorded, that
  the same staging buffer is the one mapped and read afterwards (its read
  log grows by exactly what was read), the length of what comes back, that
  a buffer is only unmapped after its mapped range was read, and how the
  rows are unpadded; not the pixel values. `gpu.rs` also holds the
  library's handles on a device (with its limits), a buffer (with its
  size, usage, what is known of its mapping and the contents read out of
  it) and a command encoder (with the texture copies recorded into it and
  their destination buffers).
- `app/` is ordinary Rust around the library: device creation, the JSON
  material-library files, the scanned directory tree, the byte views and
  queue writes of the tile records, the wavefront frame's tile upload, one
  texture readback driven through the library, and the float comparisons
  of the path-traced frame decisions.
- `tests/` exercises the library through its public interface.
