//! Animated values: a value of type `T` for each frame.
use vstd::prelude::*;

verus! {

/// A value that changes from frame to frame, such as a position or a rotation.
pub trait RayTraceAnimation<T>: Send + Sync {
    /// The value at frame `frame`.
    fn next_frame(&self, frame: usize) -> T;
}

} // verus!
