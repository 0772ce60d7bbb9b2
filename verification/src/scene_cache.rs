//! Bookkeeping of the renderer's cube-instance cache and instance buffer:
//! when the cached instances can be reused, and when the GPU instance
//! buffer must be (re)allocated and refilled.
use vstd::prelude::*;

verus! {

/// Smallest instance-buffer capacity ever allocated.
pub const MIN_INSTANCE_CAPACITY: usize = 1024;

/// Cache state; the instances themselves are held by the caller.
#[derive(Debug, Clone, Copy, PartialEq, Eq, Structural)]
pub struct InstanceCache {
    /// Instances from an earlier frame are held.
    pub has_instances: bool,
    /// Option hash the held instances were built for.
    pub opts_hash: u64,
    /// Logical scene layout width the held instances were built for.
    pub layout_width: u32,
    /// Logical scene layout height the held instances were built for.
    pub layout_height: u32,
    /// Capacity (in instances) of the GPU instance buffer, when it exists.
    pub buffer_capacity: Option<usize>,
    /// Number of times the instances were rebuilt (wrapping).
    pub rebuild_count: u64,
}

/// Whether a frame must upload instances, and the new buffer capacity when
/// the buffer must be (re)allocated first.
#[derive(Debug, Clone, Copy, PartialEq, Eq, Structural)]
pub struct InstanceUpload {
    pub upload: bool,
    pub realloc: Option<usize>,
}

/// The held instances serve a frame with these inputs: nothing animates,
/// and both the option hash and the layout size are the ones they were
/// built for.
pub open spec fn cache_hit(c: InstanceCache, animate: bool, opts_hash: u64, layout: (u32, u32)) -> bool {
    !animate && c.has_instances && c.opts_hash == opts_hash && c.layout_width == layout.0 && c.layout_height == layout.1
}

/// Capacity chosen when `count` instances do not fit: a quarter more than
/// needed, and never less than `MIN_INSTANCE_CAPACITY`.
pub open spec fn grown_instance_capacity(count: nat) -> nat {
    let c = count * 5 / 4;
    if c < MIN_INSTANCE_CAPACITY {
        MIN_INSTANCE_CAPACITY as nat
    } else {
        c
    }
}

/// The cache after freshly built instances were recorded.
pub open spec fn stored(c: InstanceCache, animate: bool, opts_hash: u64, layout: (u32, u32)) -> InstanceCache {
    if animate {
        InstanceCache { has_instances: true, ..c }
    } else {
        InstanceCache { has_instances: true, opts_hash, layout_width: layout.0, layout_height: layout.1, ..c }
    }
}

impl InstanceCache {
    /// Empty cache, no buffer.
    pub fn new() -> (r: Self)
        ensures
            r == (InstanceCache {
                has_instances: false,
                opts_hash: 0,
                layout_width: 0,
                layout_height: 0,
                buffer_capacity: None,
                rebuild_count: 0,
            }),
    {
        InstanceCache {
            has_instances: false,
            opts_hash: 0,
            layout_width: 0,
            layout_height: 0,
            buffer_capacity: None,
            rebuild_count: 0,
        }
    }

    /// Can the held instances be reused for this frame?
    pub fn is_valid(&self, animate: bool, opts_hash: u64, layout: (u32, u32)) -> (r: bool)
        ensures
            r == cache_hit(*self, animate, opts_hash, layout),
    {
        !animate && self.has_instances && self.opts_hash == opts_hash && self.layout_width == layout.0
            && self.layout_height == layout.1
    }

    /// Record freshly built instances. They are always held for the frame;
    /// the inputs they were built for are remembered only when nothing
    /// animates (animated instances are never reused).
    pub fn store(&mut self, animate: bool, opts_hash: u64, layout: (u32, u32))
        ensures
            *final(self) == stored(*old(self), animate, opts_hash, layout),
    {
        self.has_instances = true;
        if !animate {
            self.opts_hash = opts_hash;
            self.layout_width = layout.0;
            self.layout_height = layout.1;
        }
    }

    /// Count one rebuild of the instances.
    pub fn note_rebuild(&mut self)
        ensures
            *final(self) == (InstanceCache {
                rebuild_count: if old(self).rebuild_count == u64::MAX {
                    0
                } else {
                    (old(self).rebuild_count + 1) as u64
                },
                ..*old(self)
            }),
    {
        self.rebuild_count = if self.rebuild_count == u64::MAX {
            0
        } else {
            self.rebuild_count + 1
        };
    }

    /// Drop the held instances (their option hash is forgotten too).
    pub fn invalidate(&mut self)
        ensures
            *final(self) == (InstanceCache { has_instances: false, opts_hash: 0, ..*old(self) }),
    {
        self.has_instances = false;
        self.opts_hash = 0;
    }

    /// Forget the instances and the GPU buffer (render targets are reset).
    pub fn reset(&mut self)
        ensures
            *final(self) == (InstanceCache {
                has_instances: false,
                opts_hash: 0,
                layout_width: 0,
                layout_height: 0,
                buffer_capacity: None,
                ..*old(self)
            }),
    {
        self.has_instances = false;
        self.opts_hash = 0;
        self.layout_width = 0;
        self.layout_height = 0;
        self.buffer_capacity = None;
    }

    /// Decide the upload of `count` instances for a frame whose cache
    /// lookup gave `cache_valid`. Reused instances are uploaded again only
    /// when the buffer is gone; a buffer that is missing or too small is
    /// reallocated with the grown capacity, which is then recorded.
    pub fn plan_upload(&mut self, cache_valid: bool, count: usize) -> (r: InstanceUpload)
        requires
            count * 5 <= usize::MAX,
        ensures
            r.upload == (!cache_valid || old(self).buffer_capacity is None),
            r.upload && (old(self).buffer_capacity matches Some(c) ==> count > c)
                ==> r.realloc == Some(grown_instance_capacity(count as nat) as usize),
            r.upload && (old(self).buffer_capacity matches Some(c) && count <= c) ==> r.realloc is None,
            !r.upload ==> r.realloc is None,
            final(self).buffer_capacity == match r.realloc {
                Some(c) => Some(c),
                None => old(self).buffer_capacity,
            },
            final(self).has_instances == old(self).has_instances,
            final(self).opts_hash == old(self).opts_hash,
            final(self).layout_width == old(self).layout_width,
            final(self).layout_height == old(self).layout_height,
            final(self).rebuild_count == old(self).rebuild_count,
            r.upload ==> (final(self).buffer_capacity matches Some(c) && count <= c),
    {
        let upload = !cache_valid || self.buffer_capacity.is_none();
        if !upload {
            return InstanceUpload { upload: false, realloc: None };
        }
        let too_small = match self.buffer_capacity {
            Some(c) => count > c,
            None => true,
        };
        if too_small {
            let grown = count * 5 / 4;
            let cap = if grown < MIN_INSTANCE_CAPACITY {
                MIN_INSTANCE_CAPACITY
            } else {
                grown
            };
            self.buffer_capacity = Some(cap);
            InstanceUpload { upload: true, realloc: Some(cap) }
        } else {
            InstanceUpload { upload: true, realloc: None }
        }
    }
}

/// Instances stored for a still frame are found again by exactly the
/// frames that do not animate and have the same option hash and layout.
pub proof fn lemma_store_then_hit(
    c: InstanceCache,
    opts_hash: u64,
    layout: (u32, u32),
    animate: bool,
    query_hash: u64,
    query_layout: (u32, u32),
)
    ensures
        cache_hit(stored(c, false, opts_hash, layout), animate, query_hash, query_layout) <==> (
        !animate && query_hash == opts_hash && query_layout == layout),
{
}

/// Instances stored while animating are never reused.
pub proof fn lemma_animated_never_hit(c: InstanceCache, opts_hash: u64, layout: (u32, u32), query_hash: u64, query_layout: (u32, u32))
    ensures
        !cache_hit(stored(c, true, opts_hash, layout), true, query_hash, query_layout),
{
}

/// Render targets must be recreated when there are none or their size
/// differs from the frame; otherwise only missing bindings are rebuilt.
#[derive(Debug, Clone, Copy, PartialEq, Eq, Structural)]
pub enum TargetsAction {
    Recreate,
    RebindOnly,
    Keep,
}

/// Decide what `ensure_targets` must do for a `w` x `h` frame.
pub fn targets_action(current: Option<(u32, u32)>, has_bindings: bool, w: u32, h: u32) -> (r:
    TargetsAction)
    ensures
        r == match current {
            Some(size) => if size != (w, h) {
                TargetsAction::Recreate
            } else if !has_bindings {
                TargetsAction::RebindOnly
            } else {
                TargetsAction::Keep
            },
            None => TargetsAction::Recreate,
        },
{
    match current {
        Some(size) => {
            if size.0 != w || size.1 != h {
                TargetsAction::Recreate
            } else if !has_bindings {
                TargetsAction::RebindOnly
            } else {
                TargetsAction::Keep
            }
        },
        None => TargetsAction::Recreate,
    }
}


/// A grown instance buffer always holds the instances that did not fit and
/// at least `MIN_INSTANCE_CAPACITY`; above that minimum it is a quarter
/// more than needed, rounded down.
pub proof fn lemma_grown_capacity(count: nat)
    ensures
        grown_instance_capacity(count) >= count,
        grown_instance_capacity(count) >= MIN_INSTANCE_CAPACITY,
        grown_instance_capacity(count) > MIN_INSTANCE_CAPACITY ==> 4 * grown_instance_capacity(count)
            <= 5 * count < 4 * grown_instance_capacity(count) + 4,
        5 * count >= 4 * MIN_INSTANCE_CAPACITY + 4 ==> grown_instance_capacity(count) > MIN_INSTANCE_CAPACITY,
{
}

} // verus!
