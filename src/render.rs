//! The renderer's entry point: it hands out the frame schedule of a render.
use vstd::prelude::*;
use crate::params::RayTraceOutputParams;
use crate::schedule::{FrameScheduler, RenderPhase};

verus! {

/// A renderer. It holds no state of its own: each render is driven by the
/// schedule it hands out.
pub struct RayTracer {}

impl RayTracer {
    pub fn new() -> (r: RayTracer) {
        RayTracer {}
    }

    /// The schedule of a render with the given output parameters.
    pub fn schedule(&self, out_params: &RayTraceOutputParams) -> (r: FrameScheduler)
        ensures
            r.wf(),
            r.spec_phase() == RenderPhase::Idle,
            r.spec_width() == out_params.spec_width(),
            r.spec_height() == out_params.spec_height(),
            r.spec_frames() == out_params.spec_frames(),
    {
        FrameScheduler::new(out_params)
    }
}

} // verus!
