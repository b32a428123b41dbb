//! The decision of the axis-aligned bounding-box test, once the ray has been
//! projected onto the box's three slabs.
//!
//! Every coordinate and parametric distance is given by its order key: an
//! integer that orders as the floating-point value does (negative zero taking
//! the key of zero), so that each comparison of the test is a comparison of keys
//! and zero has key `0`.
use vstd::prelude::*;

verus! {

/// The ray against one axis of the box.
#[derive(PartialEq, Eq, Structural, Clone, Copy, Debug)]
pub enum AxisProjection {
    /// The ray runs parallel to the slab: the ray origin's coordinate on the
    /// axis, and the slab's two bounds.
    Parallel { origin: i64, start: i64, end: i64 },
    /// The parametric distances along the ray at which it crosses the slab's
    /// two planes, in either order.
    Crossing { t1: i64, t2: i64 },
}

/// Where the ray first meets the box.
#[derive(PartialEq, Eq, Structural, Clone, Copy, Debug)]
pub enum FirstHit {
    /// The box is missed.
    Miss,
    /// The ray is parallel to every slab and starts inside the box: no plane
    /// bounds the distance.
    Unbounded,
    /// The distance is that of slab `axis`: its far crossing where `far`, else
    /// its near one.
    At { axis: usize, far: bool },
}

pub open spec fn near(p: AxisProjection) -> int {
    match p {
        AxisProjection::Crossing { t1, t2 } => if t1 <= t2 { t1 as int } else { t2 as int },
        AxisProjection::Parallel { .. } => 0,
    }
}

pub open spec fn far(p: AxisProjection) -> int {
    match p {
        AxisProjection::Crossing { t1, t2 } => if t1 <= t2 { t2 as int } else { t1 as int },
        AxisProjection::Parallel { .. } => 0,
    }
}

/// The axis bounds the ray's distance: the ray is not parallel to its slab.
pub open spec fn is_crossing(p: AxisProjection) -> bool {
    p is Crossing
}

/// The axis alone rules the box out: a parallel ray starts outside the slab,
/// or the whole slab lies behind the ray.
pub open spec fn axis_rejects(p: AxisProjection) -> bool {
    match p {
        AxisProjection::Parallel { origin, start, end } => origin < start || origin > end,
        AxisProjection::Crossing { .. } => far(p) < 0,
    }
}

/// The parameter intervals of two crossing axes do not overlap.
pub open spec fn disjoint(a: AxisProjection, b: AxisProjection) -> bool {
    far(b) < near(a) || near(b) > far(a)
}

/// The ray hits the box: no axis rules it out, and the intervals of the
/// crossing axes overlap pairwise.
pub open spec fn slab_hit(axes: Seq<AxisProjection>) -> bool {
    &&& forall|i: int| 0 <= i < 3 ==> !axis_rejects(#[trigger] axes[i])
    &&& forall|i: int, j: int|
        0 <= i < j < 3 && is_crossing(axes[i]) && is_crossing(axes[j]) ==> !disjoint(
            #[trigger] axes[i],
            #[trigger] axes[j],
        )
}

/// The distance at which the ray meets the slab of a crossing axis: its near
/// crossing, or its far one where the near one lies behind the origin.
pub open spec fn entry(p: AxisProjection) -> int {
    if near(p) >= 0 { near(p) } else { far(p) }
}

fn order(p: AxisProjection) -> (r: (i64, i64))
    ensures
        r.0 == near(p),
        r.1 == far(p),
{
    match p {
        AxisProjection::Crossing { t1, t2 } => if t1 <= t2 { (t1, t2) } else { (t2, t1) },
        AxisProjection::Parallel { .. } => (0, 0),
    }
}

fn rejects(p: AxisProjection) -> (r: bool)
    ensures
        r == axis_rejects(p),
{
    match p {
        AxisProjection::Parallel { origin, start, end } => origin < start || origin > end,
        AxisProjection::Crossing { .. } => order(p).1 < 0,
    }
}

fn overlap_fails(a: AxisProjection, b: AxisProjection) -> (r: bool)
    ensures
        r == (is_crossing(a) && is_crossing(b) && disjoint(a, b)),
{
    if matches!(a, AxisProjection::Crossing { .. }) && matches!(b, AxisProjection::Crossing { .. }) {
        let (sa, ea) = order(a);
        let (sb, eb) = order(b);
        eb < sa || sb > ea
    } else {
        false
    }
}

/// The bounding-box test: whether the ray can hit the box at all.
pub fn is_hit(axes: [AxisProjection; 3]) -> (r: bool)
    ensures
        r == slab_hit(axes@),
{
    let r = !rejects(axes[0]) && !rejects(axes[1]) && !rejects(axes[2]) && !overlap_fails(axes[0], axes[1])
        && !overlap_fails(axes[0], axes[2]) && !overlap_fails(axes[1], axes[2]);
    proof {
        if r {
            assert forall|i: int, j: int|
                0 <= i < j < 3 && is_crossing(axes@[i]) && is_crossing(axes@[j]) implies !disjoint(
                axes@[i],
                axes@[j],
            ) by {
                if i == 0 && j == 2 {
                } else if i == 0 {
                } else {
                }
            }
        } else {
            let a = axes@;
            if !axis_rejects(a[0]) && !axis_rejects(a[1]) && !axis_rejects(a[2]) {
                if is_crossing(a[0]) && is_crossing(a[1]) && disjoint(a[0], a[1]) {
                    assert(!(is_crossing(a[0]) && is_crossing(a[1]) ==> !disjoint(a[0], a[1])));
                } else if is_crossing(a[0]) && is_crossing(a[2]) && disjoint(a[0], a[2]) {
                    assert(!(is_crossing(a[0]) && is_crossing(a[2]) ==> !disjoint(a[0], a[2])));
                } else {
                    assert(!(is_crossing(a[1]) && is_crossing(a[2]) ==> !disjoint(a[1], a[2])));
                }
            }
        }
    }
    r
}

/// Where the ray first meets the box: the least entry distance over the
/// crossing axes, the earliest axis on ties.
pub fn get_first_hit(axes: [AxisProjection; 3]) -> (r: FirstHit)
    ensures
        r == FirstHit::Miss <==> !slab_hit(axes@),
        r == FirstHit::Unbounded <==> slab_hit(axes@) && forall|i: int| 0 <= i < 3 ==> !is_crossing(#[trigger] axes@[i]),
        r matches FirstHit::At { axis, far } ==> {
            &&& axis < 3
            &&& is_crossing(axes@[axis as int])
            &&& far == (near(axes@[axis as int]) < 0)
            &&& forall|j: int| 0 <= j < 3 && is_crossing(#[trigger] axes@[j]) ==> entry(axes@[axis as int]) <= entry(axes@[j])
            &&& forall|j: int| 0 <= j < axis && is_crossing(#[trigger] axes@[j]) ==> entry(axes@[axis as int]) < entry(axes@[j])
        },
{
    if !is_hit(axes) {
        return FirstHit::Miss;
    }
    let mut best: FirstHit = FirstHit::Unbounded;
    let mut best_key: i64 = 0;
    let mut k: usize = 0;
    while k < 3
        invariant
            k <= 3,
            slab_hit(axes@),
            best is Unbounded <==> forall|i: int| 0 <= i < k ==> !is_crossing(#[trigger] axes@[i]),
            best is Miss ==> false,
            best matches FirstHit::At { axis, far } ==> {
                &&& axis < k
                &&& is_crossing(axes@[axis as int])
                &&& far == (near(axes@[axis as int]) < 0)
                &&& best_key == entry(axes@[axis as int])
                &&& forall|j: int| 0 <= j < k && is_crossing(#[trigger] axes@[j]) ==> best_key <= entry(axes@[j])
                &&& forall|j: int| 0 <= j < axis && is_crossing(#[trigger] axes@[j]) ==> best_key < entry(axes@[j])
            },
        decreases 3 - k,
    {
        let p = axes[k];
        if matches!(p, AxisProjection::Crossing { .. }) {
            let (s, e) = order(p);
            let far_end = s < 0;
            let key = if far_end { e } else { s };
            let better = match best {
                FirstHit::At { .. } => key < best_key,
                _ => true,
            };
            if better {
                best = FirstHit::At { axis: k, far: far_end };
                best_key = key;
            }
        }
        k = k + 1;
    }
    best
}

/// A ray whose origin lies inside the box hits it: on every parallel axis the
/// origin lies within the slab, and on every crossing axis the origin (distance
/// zero) lies between the two crossings. A ray with the whole of one slab
/// behind it, or parallel to a slab and outside it, misses the box.
pub proof fn lemma_origin_inside_hits(axes: Seq<AxisProjection>)
    requires
        axes.len() == 3,
    ensures
        (forall|i: int| 0 <= i < 3 ==> match #[trigger] axes[i] {
            AxisProjection::Parallel { origin, start, end } => start <= origin <= end,
            AxisProjection::Crossing { .. } => near(axes[i]) <= 0 <= far(axes[i]),
        }) ==> slab_hit(axes),
        (exists|i: int| 0 <= i < 3 && axis_rejects(#[trigger] axes[i])) ==> !slab_hit(axes),
{
}

} // verus!
