//! The per-render frame schedule. Frames are rendered strictly one after
//! another; each frame passes through starting the sink's frame, initialising
//! camera and scene for it, dispatching every pixel, and finishing the sink's
//! frame. The caller performs each step that the schedule hands out and reports
//! whether it succeeded; any failure ends the render.
use vstd::prelude::*;
use crate::params::RayTraceOutputParams;

verus! {

/// The step whose outcome the schedule waits for.
#[derive(PartialEq, Eq, Structural, Clone, Copy, Debug)]
pub enum RenderPhase {
    /// Nothing handed out yet.
    Idle,
    /// The sink is being set up for the whole render.
    SinkInit,
    /// The sink is starting frame `f`.
    FrameStart(usize),
    /// Camera and scene are being initialised for frame `f`.
    FrameInit(usize),
    /// The pixels of frame `f` are being rendered.
    Dispatching(usize),
    /// The sink is finishing frame `f`.
    Finalizing(usize),
    /// Every frame is finished.
    Done,
    /// A step failed; the render is aborted.
    Failed,
}

/// What the caller does next.
#[derive(PartialEq, Eq, Structural, Clone, Copy, Debug)]
pub enum RenderStep {
    /// Set up the sink for frames of `width` by `height` pixels.
    InitSink { width: usize, height: usize, frames: usize },
    /// Tell the sink that frame `f` starts.
    StartFrame(usize),
    /// Initialise camera and scene for frame `f`, before any pixel of it is read.
    InitFrame(usize),
    /// Render every pixel of frame `f` and hand each to the sink.
    Dispatch(usize),
    /// Tell the sink that frame `f` is complete.
    FinishFrame(usize),
    /// The render is complete.
    Finished,
    /// The render failed and stops.
    Abort,
}

/// The phase and step that follow `phase` once its step ended with outcome `ok`.
pub open spec fn next_spec(phase: RenderPhase, width: usize, height: usize, frames: usize, ok: bool) -> (RenderPhase, RenderStep) {
    match phase {
        RenderPhase::Idle => (
            RenderPhase::SinkInit,
            RenderStep::InitSink { width, height, frames },
        ),
        RenderPhase::Done => (RenderPhase::Done, RenderStep::Finished),
        RenderPhase::Failed => (RenderPhase::Failed, RenderStep::Abort),
        _ => if !ok {
            (RenderPhase::Failed, RenderStep::Abort)
        } else {
            match phase {
                RenderPhase::SinkInit => if frames == 0 {
                    (RenderPhase::Done, RenderStep::Finished)
                } else {
                    (RenderPhase::FrameStart(0), RenderStep::StartFrame(0))
                },
                RenderPhase::FrameStart(f) => (RenderPhase::FrameInit(f), RenderStep::InitFrame(f)),
                RenderPhase::FrameInit(f) => (RenderPhase::Dispatching(f), RenderStep::Dispatch(f)),
                RenderPhase::Dispatching(f) => (RenderPhase::Finalizing(f), RenderStep::FinishFrame(f)),
                RenderPhase::Finalizing(f) => if f + 1 < frames {
                    (RenderPhase::FrameStart((f + 1) as usize), RenderStep::StartFrame((f + 1) as usize))
                } else {
                    (RenderPhase::Done, RenderStep::Finished)
                },
                _ => (RenderPhase::Failed, RenderStep::Abort),
            }
        },
    }
}

/// The frame that `phase` concerns, if any.
pub open spec fn phase_frame(phase: RenderPhase) -> Option<usize> {
    match phase {
        RenderPhase::FrameStart(f) => Some(f),
        RenderPhase::FrameInit(f) => Some(f),
        RenderPhase::Dispatching(f) => Some(f),
        RenderPhase::Finalizing(f) => Some(f),
        _ => None,
    }
}

/// The schedule of one render.
pub struct FrameScheduler {
    width: usize,
    height: usize,
    frames: usize,
    phase: RenderPhase,
}

impl FrameScheduler {
    pub closed spec fn spec_width(&self) -> usize {
        self.width
    }

    pub closed spec fn spec_height(&self) -> usize {
        self.height
    }

    pub closed spec fn spec_frames(&self) -> usize {
        self.frames
    }

    pub closed spec fn spec_phase(&self) -> RenderPhase {
        self.phase
    }

    /// The frame of the current phase, if any, is one of the render's frames.
    pub open spec fn wf(&self) -> bool {
        phase_frame(self.spec_phase()) matches Some(f) ==> f < self.spec_frames()
    }

    /// A schedule for a render with the given output parameters, before its
    /// first step.
    pub fn new(out_params: &RayTraceOutputParams) -> (r: FrameScheduler)
        ensures
            r.wf(),
            r.spec_phase() == RenderPhase::Idle,
            r.spec_width() == out_params.spec_width(),
            r.spec_height() == out_params.spec_height(),
            r.spec_frames() == out_params.spec_frames(),
    {
        FrameScheduler {
            width: out_params.get_width(),
            height: out_params.get_height(),
            frames: out_params.get_frames(),
            phase: RenderPhase::Idle,
        }
    }

    pub fn phase(&self) -> (r: RenderPhase)
        ensures
            r == self.spec_phase(),
    {
        self.phase
    }

    /// Hands out the next step, given whether the step handed out before
    /// succeeded (`last_ok` is not read for the first step).
    pub fn next_step(&mut self, last_ok: bool) -> (r: RenderStep)
        requires
            old(self).wf(),
        ensures
            final(self).wf(),
            (final(self).spec_phase(), r) == next_spec(
                old(self).spec_phase(),
                old(self).spec_width(),
                old(self).spec_height(),
                old(self).spec_frames(),
                last_ok,
            ),
            final(self).spec_width() == old(self).spec_width(),
            final(self).spec_height() == old(self).spec_height(),
            final(self).spec_frames() == old(self).spec_frames(),
    {
        let (phase, step) = match self.phase {
            RenderPhase::Idle => (
                RenderPhase::SinkInit,
                RenderStep::InitSink { width: self.width, height: self.height, frames: self.frames },
            ),
            RenderPhase::Done => (RenderPhase::Done, RenderStep::Finished),
            RenderPhase::Failed => (RenderPhase::Failed, RenderStep::Abort),
            RenderPhase::SinkInit => if !last_ok {
                (RenderPhase::Failed, RenderStep::Abort)
            } else if self.frames == 0 {
                (RenderPhase::Done, RenderStep::Finished)
            } else {
                (RenderPhase::FrameStart(0), RenderStep::StartFrame(0))
            },
            RenderPhase::FrameStart(f) => if !last_ok {
                (RenderPhase::Failed, RenderStep::Abort)
            } else {
                (RenderPhase::FrameInit(f), RenderStep::InitFrame(f))
            },
            RenderPhase::FrameInit(f) => if !last_ok {
                (RenderPhase::Failed, RenderStep::Abort)
            } else {
                (RenderPhase::Dispatching(f), RenderStep::Dispatch(f))
            },
            RenderPhase::Dispatching(f) => if !last_ok {
                (RenderPhase::Failed, RenderStep::Abort)
            } else {
                (RenderPhase::Finalizing(f), RenderStep::FinishFrame(f))
            },
            RenderPhase::Finalizing(f) => if !last_ok {
                (RenderPhase::Failed, RenderStep::Abort)
            } else if f + 1 < self.frames {
                (RenderPhase::FrameStart(f + 1), RenderStep::StartFrame(f + 1))
            } else {
                (RenderPhase::Done, RenderStep::Finished)
            },
        };
        self.phase = phase;
        step
    }
}

/// Phase and step after `n + 1` calls of `next_step` on a fresh schedule where
/// every step succeeded.
pub open spec fn run_ok(width: usize, height: usize, frames: usize, n: nat) -> (RenderPhase, RenderStep)
    decreases n,
{
    if n == 0 {
        next_spec(RenderPhase::Idle, width, height, frames, true)
    } else {
        next_spec(run_ok(width, height, frames, (n - 1) as nat).0, width, height, frames, true)
    }
}

/// Where every step succeeds, frame `f` is handed out as steps `4f + 1` to
/// `4f + 4`: start, initialise, dispatch, finish. So frames run in increasing
/// order, one at a time, and the initialisation of a frame comes before its
/// dispatch.
pub proof fn lemma_frame_steps(width: usize, height: usize, frames: usize, f: nat)
    requires
        f < frames,
    ensures
        run_ok(width, height, frames, 4 * f + 1) == (RenderPhase::FrameStart(f as usize), RenderStep::StartFrame(f as usize)),
        run_ok(width, height, frames, 4 * f + 2) == (RenderPhase::FrameInit(f as usize), RenderStep::InitFrame(f as usize)),
        run_ok(width, height, frames, 4 * f + 3) == (RenderPhase::Dispatching(f as usize), RenderStep::Dispatch(f as usize)),
        run_ok(width, height, frames, 4 * f + 4) == (RenderPhase::Finalizing(f as usize), RenderStep::FinishFrame(f as usize)),
    decreases f,
{
    if f == 0 {
        assert(run_ok(width, height, frames, 0).0 == RenderPhase::SinkInit);
    } else {
        lemma_frame_steps(width, height, frames, (f - 1) as nat);
        assert(4 * ((f - 1) as nat) + 4 == 4 * f);
    }
    assert(run_ok(width, height, frames, 4 * f + 1) == next_spec(run_ok(width, height, frames, 4 * f).0, width, height, frames, true));
    assert(run_ok(width, height, frames, 4 * f + 2) == next_spec(run_ok(width, height, frames, 4 * f + 1).0, width, height, frames, true));
    assert(run_ok(width, height, frames, 4 * f + 3) == next_spec(run_ok(width, height, frames, 4 * f + 2).0, width, height, frames, true));
    assert(run_ok(width, height, frames, 4 * f + 4) == next_spec(run_ok(width, height, frames, 4 * f + 3).0, width, height, frames, true));
}

/// Where every step succeeds, the first step sets up the sink, and every step
/// after the last frame's finish reports the render complete.
pub proof fn lemma_render_ends(width: usize, height: usize, frames: usize, m: nat)
    ensures
        run_ok(width, height, frames, 0).1 == (RenderStep::InitSink { width, height, frames }),
        run_ok(width, height, frames, (4 * frames + 1 + m) as nat) == (RenderPhase::Done, RenderStep::Finished),
    decreases m,
{
    if m == 0 {
        if frames == 0 {
            assert(run_ok(width, height, frames, 0).0 == RenderPhase::SinkInit);
        } else {
            lemma_frame_steps(width, height, frames, (frames - 1) as nat);
            assert(4 * ((frames - 1) as nat) + 4 == 4 * frames);
        }
        assert(run_ok(width, height, frames, (4 * frames + 1) as nat) == next_spec(run_ok(width, height, frames, (4 * frames) as nat).0, width, height, frames, true));
    } else {
        lemma_render_ends(width, height, frames, (m - 1) as nat);
        assert(run_ok(width, height, frames, (4 * frames + 1 + m) as nat) == next_spec(run_ok(width, height, frames, (4 * frames + 1 + m - 1) as nat).0, width, height, frames, true));
    }
}

/// Once a step has failed, the schedule hands out nothing but `Abort`.
pub proof fn lemma_failure_is_final(phase: RenderPhase, width: usize, height: usize, frames: usize, ok: bool, later_ok: bool)
    requires
        phase != RenderPhase::Idle,
        phase != RenderPhase::Done,
        !ok,
    ensures
        next_spec(phase, width, height, frames, ok) == (RenderPhase::Failed, RenderStep::Abort),
        next_spec(RenderPhase::Failed, width, height, frames, later_ok) == (RenderPhase::Failed, RenderStep::Abort),
{
}

} // verus!
