//! Rendering kernel of a frame-sequential ray tracer: output geometry, nearest-hit
//! selection with depth-limited reflection, the per-frame schedule and the frame
//! buffer of the PNG sink.
pub mod aabb;
pub mod anim;
pub mod params;
pub mod render;
pub mod schedule;
pub mod shading;
pub mod sink;

pub use anim::RayTraceAnimation;
pub use params::RayTraceOutputParams;
pub use render::RayTracer;
pub use schedule::{FrameScheduler, RenderPhase, RenderStep};
pub use shading::{classify_ray, nearest_hit, RayVerdict};
pub use sink::PngSink;
