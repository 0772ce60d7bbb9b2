//! Progressive accumulation bookkeeping of the compute path tracer: how many
//! frames have been accumulated, when accumulation restarts, and what each
//! dispatch has to do before it records its passes.
//!
//! The GPU work itself (clearing buffers, recording passes) is done by the
//! caller; the decisions live here so that they can be stated and checked.
use vstd::prelude::*;

verus! {

/// Sample budget a fresh path tracer converges at.
pub const DEFAULT_MAX_SAMPLES: u32 = 512;

/// Accumulation state of one path tracer instance.
#[derive(Debug, Clone, Copy, PartialEq, Eq, Structural)]
pub struct Accumulation {
    /// Output width in pixels.
    pub width: u32,
    /// Output height in pixels.
    pub height: u32,
    /// Frames accumulated since the last reset.
    pub frame_count: u32,
    /// Frame budget; dispatches stop adding samples once it is reached.
    pub max_samples: u32,
    /// Scene buffers have been uploaded at least once.
    pub scene_ready: bool,
    /// Temporal history (reservoirs, guiding state) must be cleared on the
    /// next first frame.
    pub history_dirty: bool,
    /// The wavefront back end is switched on.
    pub wavefront_enabled: bool,
}

/// What a dispatch must do once the state has been consulted.
#[derive(Debug, Clone, Copy, PartialEq, Eq, Structural)]
pub enum FrameStart {
    /// Nothing to dispatch: bindings missing or no scene uploaded.
    NotReady,
    /// The sample budget is reached; the image is final.
    Converged,
    /// Record the passes for frame number `frame` (1-based). When
    /// `clear_accum` is set the accumulation buffer must be zeroed first;
    /// when `clear_history` is set the temporal history must be zeroed too.
    Render { frame: u32, clear_accum: bool, clear_history: bool },
}

impl Accumulation {
    /// Fresh state for a `width` x `height` output: nothing accumulated, no
    /// scene, wavefront off, default sample budget.
    pub fn new(width: u32, height: u32) -> (r: Self)
        ensures
            r == (Accumulation {
                width,
                height,
                frame_count: 0,
                max_samples: DEFAULT_MAX_SAMPLES,
                scene_ready: false,
                history_dirty: false,
                wavefront_enabled: false,
            }),
    {
        Accumulation {
            width,
            height,
            frame_count: 0,
            max_samples: DEFAULT_MAX_SAMPLES,
            scene_ready: false,
            history_dirty: false,
            wavefront_enabled: false,
        }
    }

    /// Restart progressive accumulation.
    pub fn reset_accumulation(&mut self)
        ensures
            *final(self) == (Accumulation { frame_count: 0, ..*old(self) }),
    {
        self.frame_count = 0;
    }

    /// Request that temporal history be cleared on the next first frame.
    pub fn mark_history_dirty(&mut self)
        ensures
            *final(self) == (Accumulation { history_dirty: true, ..*old(self) }),
    {
        self.history_dirty = true;
    }

    /// Record that new scene buffers were uploaded: the scene is ready and
    /// accumulation restarts.
    pub fn scene_uploaded(&mut self)
        ensures
            *final(self) == (Accumulation { scene_ready: true, frame_count: 0, ..*old(self) }),
    {
        self.scene_ready = true;
        self.frame_count = 0;
    }

    /// Adopt a new output size. Returns `true` when the size changed, in
    /// which case every size-dependent GPU resource must be recreated and
    /// accumulation restarts; an unchanged size leaves the state alone.
    pub fn resize(&mut self, width: u32, height: u32) -> (changed: bool)
        ensures
            changed == (old(self).width != width || old(self).height != height),
            changed ==> *final(self) == (Accumulation { width, height, frame_count: 0, ..*old(self) }),
            !changed ==> *final(self) == *old(self),
    {
        if self.width == width && self.height == height {
            return false;
        }
        self.width = width;
        self.height = height;
        self.frame_count = 0;
        true
    }

    /// Switch the wavefront back end on or off. `has_pipeline` tells whether
    /// its pipeline already exists; the result says whether it must be
    /// created now. Switching on only takes effect together with creating
    /// the pipeline; any change of the requested state restarts
    /// accumulation and dirties the temporal history.
    pub fn set_wavefront_enabled(&mut self, has_pipeline: bool, enabled: bool) -> (create: bool)
        ensures
            create == (enabled && !has_pipeline),
            final(self).wavefront_enabled == if create {
                true
            } else if !enabled {
                false
            } else {
                old(self).wavefront_enabled
            },
            old(self).wavefront_enabled != enabled ==> final(self).frame_count == 0
                && final(self).history_dirty,
            old(self).wavefront_enabled == enabled ==> final(self).frame_count
                == old(self).frame_count && final(self).history_dirty == old(self).history_dirty,
            final(self).width == old(self).width,
            final(self).height == old(self).height,
            final(self).max_samples == old(self).max_samples,
            final(self).scene_ready == old(self).scene_ready,
    {
        let prev_enabled = self.wavefront_enabled;
        let create = enabled && !has_pipeline;
        if create {
            self.wavefront_enabled = true;
        } else if !enabled {
            self.wavefront_enabled = false;
        }
        if prev_enabled != enabled {
            self.frame_count = 0;
            self.history_dirty = true;
        }
        create
    }

    /// Consult the state before a megakernel dispatch. `has_bindings` tells
    /// whether the dispatch bind group exists. On `Render` the frame counter
    /// advances by one; the accumulation buffer is cleared on the first
    /// frame after a reset. History is not touched by this back end.
    pub fn begin_frame(&mut self, has_bindings: bool) -> (r: FrameStart)
        ensures
            (r, *final(self)) == frame_step(*old(self), has_bindings, false),
    {
        if !has_bindings || !self.scene_ready {
            return FrameStart::NotReady;
        }
        if self.frame_count >= self.max_samples {
            return FrameStart::Converged;
        }
        let clear_accum = self.frame_count == 0;
        self.frame_count = self.frame_count + 1;
        FrameStart::Render { frame: self.frame_count, clear_accum, clear_history: false }
    }

    /// Consult the state before a wavefront dispatch. `has_pipeline` tells
    /// whether the wavefront pipeline and its bind groups exist. Like
    /// `begin_frame`, but the first frame after a reset also clears the
    /// temporal history when it was marked dirty, and that mark is consumed.
    pub fn begin_wavefront_frame(&mut self, has_pipeline: bool) -> (r: FrameStart)
        ensures
            (r, *final(self)) == frame_step(*old(self), has_pipeline, true),
    {
        if !has_pipeline || !self.scene_ready {
            return FrameStart::NotReady;
        }
        if self.frame_count >= self.max_samples {
            return FrameStart::Converged;
        }
        let clear_accum = self.frame_count == 0;
        let clear_history = clear_accum && self.history_dirty;
        if clear_history {
            self.history_dirty = false;
        }
        self.frame_count = self.frame_count + 1;
        FrameStart::Render { frame: self.frame_count, clear_accum, clear_history }
    }
}

/// One dispatch decision: the answer and the state after it. `ready` says
/// whether the GPU bindings exist; `with_history` selects the wavefront
/// back end, which also owns temporal history.
pub open spec fn frame_step(s: Accumulation, ready: bool, with_history: bool) -> (FrameStart, Accumulation) {
    if !ready || !s.scene_ready {
        (FrameStart::NotReady, s)
    } else if s.frame_count >= s.max_samples {
        (FrameStart::Converged, s)
    } else {
        let clear_history = with_history && s.frame_count == 0 && s.history_dirty;
        (
            FrameStart::Render {
                frame: (s.frame_count + 1) as u32,
                clear_accum: s.frame_count == 0,
                clear_history,
            },
            Accumulation {
                frame_count: (s.frame_count + 1) as u32,
                history_dirty: s.history_dirty && !clear_history,
                ..s
            },
        )
    }
}

/// `n` dispatch decisions in a row with the bindings present.
pub open spec fn frame_steps(s: Accumulation, n: nat, with_history: bool) -> Accumulation
    decreases n,
{
    if n == 0 {
        s
    } else {
        frame_steps(frame_step(s, true, with_history).1, (n - 1) as nat, with_history)
    }
}

/// A dispatch never carries the frame counter past the budget, and a state
/// that has reached its budget is left exactly as it is.
pub proof fn lemma_budget_respected(s: Accumulation, ready: bool, with_history: bool)
    ensures
        s.frame_count <= s.max_samples ==> frame_step(s, ready, with_history).1.frame_count
            <= frame_step(s, ready, with_history).1.max_samples,
        frame_step(s, ready, with_history).1.max_samples == s.max_samples,
        s.frame_count >= s.max_samples ==> frame_step(s, ready, with_history).1 == s,
        frame_step(s, ready, with_history).0 is Render ==> frame_step(s, ready, with_history).1.frame_count
            == s.frame_count + 1,
{
}

/// After a reset, the next dispatch that renders clears the accumulation
/// buffer (and, on the wavefront back end, a dirty history), so no sample
/// from before the reset survives.
pub proof fn lemma_reset_clears_next_frame(s: Accumulation, with_history: bool)
    requires
        s.scene_ready,
        s.max_samples > 0,
    ensures
        ({
            let r = frame_step(Accumulation { frame_count: 0, ..s }, true, with_history).0;
            &&& r is Render
            &&& r->clear_accum
            &&& r->frame == 1
            &&& r->clear_history == (with_history && s.history_dirty)
        }),
{
}

/// Starting from a reset with a ready scene, `n` dispatches within the
/// budget accumulate exactly `n` frames; beyond the budget the counter
/// stays at the budget.
pub proof fn lemma_frames_accumulate(s: Accumulation, n: nat, with_history: bool)
    requires
        s.scene_ready,
        s.frame_count == 0,
    ensures
        frame_steps(s, n, with_history).frame_count == if n <= s.max_samples {
            n
        } else {
            s.max_samples as nat
        },
        frame_steps(s, n, with_history).max_samples == s.max_samples,
        frame_steps(s, n, with_history).scene_ready,
{
    lemma_frames_accumulate_from(s, n, with_history);
}

/// From any ready state within its budget, `n` dispatches add exactly `n`
/// frames until the budget is reached, and the counter then stays at the
/// budget.
pub proof fn lemma_frames_accumulate_from(s: Accumulation, n: nat, with_history: bool)
    requires
        s.scene_ready,
        s.frame_count <= s.max_samples,
    ensures
        frame_steps(s, n, with_history).frame_count == if s.frame_count + n <= s.max_samples {
            s.frame_count + n
        } else {
            s.max_samples as int
        },
        frame_steps(s, n, with_history).max_samples == s.max_samples,
        frame_steps(s, n, with_history).scene_ready,
    decreases n,
{
    if n > 0 {
        lemma_frames_accumulate_from(frame_step(s, true, with_history).1, (n - 1) as nat, with_history);
    }
}


/// A dispatch renders exactly when it is ready, the scene is uploaded and
/// the budget is not reached; it then renders the next frame number, clears
/// the accumulation buffer exactly on the first frame (counter 0), and
/// clears history exactly on a first wavefront frame with dirty history.
pub proof fn lemma_render_clears_only_first_frame(s: Accumulation, ready: bool, with_history: bool)
    ensures
        (frame_step(s, ready, with_history).0 is Render) <==> (ready && s.scene_ready
            && s.frame_count < s.max_samples),
        frame_step(s, ready, with_history).0 matches FrameStart::Render {
            frame,
            clear_accum,
            clear_history,
        } ==> {
            &&& frame == s.frame_count + 1
            &&& clear_accum <==> s.frame_count == 0
            &&& clear_history <==> (with_history && s.frame_count == 0 && s.history_dirty)
        },
{
}


/// A rendering dispatch advances the frame counter by one and consumes dirty
/// history exactly when it clears it; a dispatch that does not render
/// leaves the state as it was. Dimensions, budget and flags never change.
pub proof fn lemma_dispatch_state_change(s: Accumulation, ready: bool, with_history: bool)
    ensures
        frame_step(s, ready, with_history).0 matches FrameStart::Render { clear_history, .. } ==> {
            let t = frame_step(s, ready, with_history).1;
            &&& t.frame_count == s.frame_count + 1
            &&& t.history_dirty == (s.history_dirty && !clear_history)
            &&& t.width == s.width && t.height == s.height && t.max_samples == s.max_samples
            &&& t.scene_ready == s.scene_ready && t.wavefront_enabled == s.wavefront_enabled
        },
        !(frame_step(s, ready, with_history).0 is Render) ==> frame_step(s, ready, with_history).1 == s,
{
}

} // verus!
