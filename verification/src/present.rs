//! The presentation pipeline's pacing and swapchain-lifecycle protocol.
//!
//! The pipeline bounds outstanding GPU work to one frame: before new work is
//! submitted, the previous frame's completion fence must have been waited
//! on. Size-dependent resources are recreated only when the surface size
//! actually changes, and unconditionally when the swapchain reports itself
//! out of date. The host performs the real GPU calls; this state machine
//! decides when they are allowed and counts what they must have done.

use vstd::prelude::*;

verus! {

/// One in-flight presentation request: the `frame`-th frame submitted since
/// the pipeline was built. The host pairs it with the GPU fence it must
/// wait on before reusing submission resources.
#[derive(Clone, Copy, Debug, PartialEq, Eq, Structural)]
pub struct FrameToken {
    pub frame: u64,
}

/// The pipeline's bookkeeping, over mathematical integers.
pub struct PipelineModel {
    /// Current surface size in physical pixels.
    pub width: int,
    pub height: int,
    /// How many times the swapchain and its size-dependent resources have
    /// been created, the initial creation included.
    pub recreations: int,
    /// Frames whose GPU work has been submitted.
    pub submitted: int,
    /// Frames whose completion fence has been waited on.
    pub waited: int,
    /// The frame submitted but not yet waited on, if any.
    pub in_flight: Option<int>,
}

impl PipelineModel {
    /// Submitted frames not yet known complete.
    pub open spec fn outstanding(self) -> int {
        self.submitted - self.waited
    }

    /// Every submitted frame but at most the latest has had its fence
    /// waited on, and the outstanding one is the latest.
    pub open spec fn wf(self) -> bool {
        &&& self.waited >= 0
        &&& match self.in_flight {
            Some(f) => f == self.submitted - 1 && self.waited == self.submitted - 1,
            None => self.waited == self.submitted,
        }
    }
}

/// Telling the pipeline a new surface size recreates the size-dependent
/// resources only when the size differs from the current one.
pub open spec fn spec_resize(m: PipelineModel, w: int, h: int) -> PipelineModel {
    if w == m.width && h == m.height {
        m
    } else {
        PipelineModel {
            width: w,
            height: h,
            recreations: m.recreations + 1,
            submitted: m.submitted,
            waited: m.waited,
            in_flight: m.in_flight,
        }
    }
}

/// An out-of-date swapchain is recreated unconditionally at the size the
/// surface now has, after which acquisition is retried.
pub open spec fn spec_out_of_date(m: PipelineModel, w: int, h: int) -> PipelineModel {
    PipelineModel {
        width: w,
        height: h,
        recreations: m.recreations + 1,
        submitted: m.submitted,
        waited: m.waited,
        in_flight: m.in_flight,
    }
}

/// Waiting on the previous frame's fence clears the outstanding frame.
pub open spec fn spec_wait_previous(m: PipelineModel) -> PipelineModel {
    match m.in_flight {
        Some(f) => PipelineModel {
            width: m.width,
            height: m.height,
            recreations: m.recreations,
            submitted: m.submitted,
            waited: m.waited + 1,
            in_flight: None,
        },
        None => m,
    }
}

/// Submitting a frame's GPU work is refused while a frame is outstanding;
/// otherwise the new frame becomes the outstanding one.
pub open spec fn spec_submit_frame(m: PipelineModel) -> PipelineModel {
    match m.in_flight {
        Some(f) => m,
        None => PipelineModel {
            width: m.width,
            height: m.height,
            recreations: m.recreations,
            submitted: m.submitted + 1,
            waited: m.waited,
            in_flight: Some(m.submitted),
        },
    }
}

/// The pipeline as the host holds it.
pub struct Pipeline {
    pub width: u32,
    pub height: u32,
    pub recreations: u64,
    pub submitted: u64,
    pub waited: u64,
    pub in_flight: Option<FrameToken>,
}

impl View for Pipeline {
    type V = PipelineModel;

    open spec fn view(&self) -> PipelineModel {
        PipelineModel {
            width: self.width as int,
            height: self.height as int,
            recreations: self.recreations as int,
            submitted: self.submitted as int,
            waited: self.waited as int,
            in_flight: match self.in_flight {
                Some(t) => Some(t.frame as int),
                None => None,
            },
        }
    }
}

impl Pipeline {
    /// A pipeline whose swapchain has just been built at the given size,
    /// with no frame submitted yet.
    pub fn new(width: u32, height: u32) -> (p: Self)
        ensures
            p@.wf(),
            p@.width == width as int,
            p@.height == height as int,
            p@.recreations == 1,
            p@.submitted == 0,
            p@.waited == 0,
            p@.in_flight is None,
    {
        Pipeline { width, height, recreations: 1, submitted: 0, waited: 0, in_flight: None }
    }

    /// Reports a new surface size. Returns whether the swapchain and its
    /// dependent resources must be rebuilt; a size equal to the current one
    /// is a no-op.
    pub fn resize(&mut self, width: u32, height: u32) -> (recreated: bool)
        requires
            old(self).recreations < u64::MAX,
        ensures
            final(self)@ == spec_resize(old(self)@, width as int, height as int),
            recreated == !(old(self).width == width && old(self).height == height),
            old(self)@.wf() ==> final(self)@.wf(),
    {
        if self.width == width && self.height == height {
            false
        } else {
            self.width = width;
            self.height = height;
            self.recreations = self.recreations + 1;
            true
        }
    }

    /// Reports that acquisition found the swapchain out of date at the given
    /// surface size; the swapchain is rebuilt before acquisition is retried.
    pub fn handle_out_of_date(&mut self, width: u32, height: u32)
        requires
            old(self).recreations < u64::MAX,
        ensures
            final(self)@ == spec_out_of_date(old(self)@, width as int, height as int),
            old(self)@.wf() ==> final(self)@.wf(),
    {
        self.width = width;
        self.height = height;
        self.recreations = self.recreations + 1;
    }

    /// Hands back the frame whose fence the host must wait on before any new
    /// submission, and records the wait as done.
    pub fn wait_previous(&mut self) -> (fence: Option<FrameToken>)
        requires
            old(self)@.wf(),
        ensures
            final(self)@ == spec_wait_previous(old(self)@),
            fence == old(self).in_flight,
            final(self)@.wf(),
    {
        match self.in_flight.take() {
            Some(t) => {
                self.waited = self.waited + 1;
                Some(t)
            },
            None => None,
        }
    }

    /// Asks to submit the next frame's GPU work. Refused (`None`) while the
    /// previous frame's fence has not been waited on; otherwise the returned
    /// token names the newly outstanding frame.
    pub fn try_submit(&mut self) -> (token: Option<FrameToken>)
        requires
            old(self)@.wf(),
            old(self).submitted < u64::MAX,
        ensures
            final(self)@ == spec_submit_frame(old(self)@),
            final(self)@.wf(),
            old(self).in_flight is Some ==> token is None,
            old(self).in_flight is None ==> token == Some(FrameToken { frame: old(self).submitted }),
    {
        match self.in_flight {
            Some(_) => None,
            None => {
                let token = FrameToken { frame: self.submitted };
                self.submitted = self.submitted + 1;
                self.in_flight = Some(token);
                Some(token)
            },
        }
    }
}

/// What the host's frame acquisition reported.
#[derive(Clone, Copy, Debug, PartialEq, Eq, Structural)]
pub enum AcquireOutcome {
    /// A swapchain image was acquired.
    Acquired,
    /// The swapchain no longer matches the surface.
    OutOfDate,
    /// Any other acquisition error; there is no recovery policy.
    Fatal,
}

/// What the host must do about an acquisition outcome.
#[derive(Clone, Copy, Debug, PartialEq, Eq, Structural)]
pub enum AcquireDirective {
    Proceed,
    Retry,
    Fail,
}

impl Pipeline {
    /// Routes an acquisition outcome: an out-of-date swapchain is rebuilt
    /// at the size the surface has now and acquisition retried, never
    /// surfaced to the caller; any other failure is fatal.
    pub fn on_acquire(&mut self, outcome: AcquireOutcome, width: u32, height: u32) -> (d:
        AcquireDirective)
        requires
            old(self).recreations < u64::MAX,
        ensures
            outcome is Acquired ==> d is Proceed && *final(self) == *old(self),
            outcome is OutOfDate ==> d is Retry && final(self)@ == spec_out_of_date(
                old(self)@,
                width as int,
                height as int,
            ),
            outcome is Fatal ==> d is Fail && *final(self) == *old(self),
            old(self)@.wf() ==> final(self)@.wf(),
    {
        match outcome {
            AcquireOutcome::Acquired => AcquireDirective::Proceed,
            AcquireOutcome::OutOfDate => {
                self.handle_out_of_date(width, height);
                AcquireDirective::Retry
            },
            AcquireOutcome::Fatal => AcquireDirective::Fail,
        }
    }
}

/// Frame pacing: in a well-formed pipeline at most one frame is ever
/// outstanding, a submission is possible only once every previously
/// submitted frame's fence has been waited on, and while one is outstanding
/// a submission changes nothing.
pub proof fn lemma_frame_pacing(m: PipelineModel)
    requires
        m.wf(),
    ensures
        m.outstanding() <= 1,
        m.in_flight is None ==> m.waited == m.submitted,
        m.in_flight is Some ==> spec_submit_frame(m) == m,
{
}

/// One step of the pipeline protocol, as the host may drive it.
pub enum PipelineOp {
    Resize(int, int),
    OutOfDate(int, int),
    WaitPrevious,
    SubmitFrame,
}

/// The pipeline after one protocol step.
pub open spec fn spec_step(m: PipelineModel, op: PipelineOp) -> PipelineModel {
    match op {
        PipelineOp::Resize(w, h) => spec_resize(m, w, h),
        PipelineOp::OutOfDate(w, h) => spec_out_of_date(m, w, h),
        PipelineOp::WaitPrevious => spec_wait_previous(m),
        PipelineOp::SubmitFrame => spec_submit_frame(m),
    }
}

/// The pipeline after a whole sequence of protocol steps.
pub open spec fn run_steps(m: PipelineModel, ops: Seq<PipelineOp>) -> PipelineModel
    decreases ops.len(),
{
    if ops.len() == 0 {
        m
    } else {
        run_steps(spec_step(m, ops[0]), ops.drop_first())
    }
}

/// However the host drives the protocol, the pipeline stays well formed, so
/// GPU work never runs more than one frame ahead of the waits.
pub proof fn lemma_pacing_holds_along_every_run(m: PipelineModel, ops: Seq<PipelineOp>)
    requires
        m.wf(),
    ensures
        run_steps(m, ops).wf(),
        run_steps(m, ops).outstanding() <= 1,
    decreases ops.len(),
{
    if ops.len() > 0 {
        lemma_pacing_holds_along_every_run(spec_step(m, ops[0]), ops.drop_first());
    }
}

/// Resize idempotence: reporting the same size twice recreates the
/// size-dependent resources at most once; the second report is a no-op.
pub proof fn lemma_resize_idempotent(m: PipelineModel, w: int, h: int)
    ensures
        spec_resize(spec_resize(m, w, h), w, h) == spec_resize(m, w, h),
        spec_resize(spec_resize(m, w, h), w, h).recreations <= m.recreations + 1,
{
}

} // verus!
