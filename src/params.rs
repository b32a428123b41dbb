//! Output geometry of a render: image size and frame count, and the numbering
//! of the per-pixel tasks of one frame.
use vstd::prelude::*;

verus! {

/// Width and height of each frame in pixels, and the number of frames.
pub struct RayTraceOutputParams {
    width: usize,
    height: usize,
    frames: usize,
}

impl RayTraceOutputParams {
    pub closed spec fn spec_width(&self) -> usize {
        self.width
    }

    pub closed spec fn spec_height(&self) -> usize {
        self.height
    }

    pub closed spec fn spec_frames(&self) -> usize {
        self.frames
    }

    /// Number of pixels of one frame.
    pub open spec fn spec_pixel_count(&self) -> int {
        self.spec_width() * self.spec_height()
    }

    pub fn new(width: usize, height: usize, frames: usize) -> (r: RayTraceOutputParams)
        ensures
            r.spec_width() == width,
            r.spec_height() == height,
            r.spec_frames() == frames,
    {
        RayTraceOutputParams { width, height, frames }
    }

    pub fn get_width(&self) -> (r: usize)
        ensures
            r == self.spec_width(),
    {
        self.width
    }

    pub fn get_height(&self) -> (r: usize)
        ensures
            r == self.spec_height(),
    {
        self.height
    }

    pub fn get_frames(&self) -> (r: usize)
        ensures
            r == self.spec_frames(),
    {
        self.frames
    }

    /// Number of pixel tasks of one frame, or `None` where it does not fit a `usize`.
    pub fn pixel_count(&self) -> (r: Option<usize>)
        ensures
            r == (if self.spec_pixel_count() <= usize::MAX {
                Some(self.spec_pixel_count() as usize)
            } else {
                None::<usize>
            }),
    {
        self.width.checked_mul(self.height)
    }

    /// The pixel `(x, y)` that task number `task` of a frame renders. Tasks run
    /// row by row, each row from left to right.
    pub fn pixel_of_task(&self, task: usize) -> (r: (usize, usize))
        requires
            task < self.spec_pixel_count(),
        ensures
            r.0 < self.spec_width(),
            r.1 < self.spec_height(),
            r.1 * self.spec_width() + r.0 == task,
    {
        let w = self.width;
        let h = self.height;
        assert(w > 0) by (nonlinear_arith)
            requires
                task < w * h,
        ;
        let x = task % w;
        let y = task / w;
        proof {
            vstd::arithmetic::div_mod::lemma_fundamental_div_mod(task as int, w as int);
            vstd::arithmetic::mul::lemma_mul_is_commutative(w as int, y as int);
            assert(y < h) by (nonlinear_arith)
                requires
                    task < w * h,
                    y * w <= task,
                    w > 0,
            ;
        }
        (x, y)
    }
}

/// The tasks of a frame number its pixels one to one: pixel `(x, y)` is task
/// `y * width + x`, which is below the pixel count, and no other pixel has that
/// number.
pub proof fn lemma_each_pixel_one_task(width: nat, height: nat, x: nat, y: nat, x2: nat, y2: nat)
    requires
        x < width,
        y < height,
        x2 < width,
    ensures
        y * width + x < width * height,
        y2 * width + x2 == y * width + x ==> x2 == x && y2 == y,
{
    assert(y * width + x < width * height) by (nonlinear_arith)
        requires
            x < width,
            y < height,
    ;
    if y2 * width + x2 == y * width + x {
        if y2 < y {
            assert(y2 * width + x2 < y * width) by (nonlinear_arith)
                requires
                    y2 < y,
                    x2 < width,
            ;
        } else if y < y2 {
            assert(y * width + x < y2 * width) by (nonlinear_arith)
                requires
                    y < y2,
                    x < width,
            ;
        }
    }
}

} // verus!
