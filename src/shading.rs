//! Decisions of the recursive shading pipeline that do not depend on colour
//! arithmetic: which candidate hit is the nearest, and whether a ray takes the
//! background colour, the indirect colour or the colour of a surface.
//!
//! A hit distance is given by the bit pattern of its IEEE-754 binary64 value
//! (`f64::to_bits`). A distance is a valid hit when it is greater than zero: its
//! sign bit is clear, it is not zero and it is not NaN. For such values the
//! numeric order and the unsigned order of the bit patterns coincide, so the
//! selection below compares bit patterns as integers.
use vstd::prelude::*;

verus! {

/// Bit pattern of positive infinity, the largest valid hit distance.
pub const INFINITE_DISTANCE_BITS: u64 = 0x7ff0_0000_0000_0000;

/// The distance with bit pattern `bits` is greater than zero (and not NaN).
pub open spec fn is_valid_distance(bits: u64) -> bool {
    0 < bits && bits <= INFINITE_DISTANCE_BITS
}

/// Candidate `i` of a scene's candidates carries a valid hit. A candidate is
/// `None` where the object's bounding volume rejected the ray or the object
/// reported no hit.
pub open spec fn is_valid_candidate(c: Seq<Option<u64>>, i: int) -> bool {
    0 <= i < c.len() && c[i] is Some && is_valid_distance(c[i]->0)
}

/// Some candidate carries a valid hit.
pub open spec fn has_valid_hit(c: Seq<Option<u64>>) -> bool {
    exists|i: int| is_valid_candidate(c, i)
}

/// Candidate `i` is the nearest valid hit, and no earlier candidate is as near:
/// among hits at equal distance the object earlier in scene order wins.
pub open spec fn is_nearest_hit(c: Seq<Option<u64>>, i: int) -> bool {
    &&& is_valid_candidate(c, i)
    &&& forall|j: int| #[trigger] is_valid_candidate(c, j) ==> c[i]->0 <= c[j]->0
    &&& forall|j: int| 0 <= j < i && #[trigger] is_valid_candidate(c, j) ==> c[i]->0 < c[j]->0
}

/// Index of the nearest valid hit among the candidates, earliest on ties;
/// `None` where no candidate carries a valid hit.
pub fn nearest_hit(candidates: &Vec<Option<u64>>) -> (r: Option<usize>)
    ensures
        r is None <==> !has_valid_hit(candidates@),
        r matches Some(i) ==> is_nearest_hit(candidates@, i as int),
{
    let mut best: Option<usize> = None;
    let mut best_bits: u64 = 0;
    let mut k: usize = 0;
    while k < candidates.len()
        invariant
            k <= candidates.len(),
            best is None ==> forall|j: int| 0 <= j < k ==> !is_valid_candidate(candidates@, j),
            best matches Some(b) ==> {
                &&& b < k
                &&& is_valid_candidate(candidates@, b as int)
                &&& candidates@[b as int]->0 == best_bits
                &&& forall|j: int|
                    0 <= j < k && #[trigger] is_valid_candidate(candidates@, j) ==> best_bits
                        <= candidates@[j]->0
                &&& forall|j: int|
                    0 <= j < b && #[trigger] is_valid_candidate(candidates@, j) ==> best_bits
                        < candidates@[j]->0
            },
        decreases candidates.len() - k,
    {
        if let Some(bits) = candidates[k] {
            if 0 < bits && bits <= INFINITE_DISTANCE_BITS {
                let better = match best {
                    None => true,
                    Some(_) => bits < best_bits,
                };
                if better {
                    best = Some(k);
                    best_bits = bits;
                }
            }
        }
        k = k + 1;
    }
    proof {
        if best is None {
            assert(!has_valid_hit(candidates@));
        } else {
            assert(is_valid_candidate(candidates@, best->0 as int));
        }
    }
    best
}

/// How a ray is coloured.
#[derive(PartialEq, Eq, Structural, Clone, Copy, Debug)]
pub enum RayVerdict {
    /// A primary ray that hits nothing takes the background colour.
    Background,
    /// A ray beyond the reflection depth, or a secondary ray that hits
    /// nothing, takes the indirect colour.
    Indirect,
    /// The ray takes the colour of the surface of candidate `hit`; where that
    /// surface reflects, the reflected ray is traced at depth `reflect_depth`.
    Surface { hit: usize, reflect_depth: usize },
}

/// The verdict for a ray at recursion depth `depth` (0 for a primary ray),
/// with candidates `c`, under maximum reflection depth `max_depth`.
pub open spec fn ray_verdict(depth: nat, max_depth: nat, c: Seq<Option<u64>>) -> RayVerdict {
    if depth > max_depth {
        RayVerdict::Indirect
    } else if !has_valid_hit(c) {
        if depth == 0 {
            RayVerdict::Background
        } else {
            RayVerdict::Indirect
        }
    } else {
        let i = choose|i: int| is_nearest_hit(c, i);
        RayVerdict::Surface { hit: i as usize, reflect_depth: (depth + 1) as usize }
    }
}

proof fn lemma_nearest_hit_unique(c: Seq<Option<u64>>, i: int, k: int)
    requires
        is_nearest_hit(c, i),
        is_nearest_hit(c, k),
    ensures
        i == k,
{
    if i < k {
        assert(is_valid_candidate(c, i));
    } else if k < i {
        assert(is_valid_candidate(c, k));
    }
}

/// Decides how a ray at recursion depth `depth` is coloured, given the
/// candidate hits of the scene's objects in scene order.
pub fn classify_ray(depth: usize, max_depth: usize, candidates: &Vec<Option<u64>>) -> (r:
    RayVerdict)
    requires
        max_depth < usize::MAX,
    ensures
        r == ray_verdict(depth as nat, max_depth as nat, candidates@),
{
    if depth > max_depth {
        return RayVerdict::Indirect;
    }
    match nearest_hit(candidates) {
        None => {
            if depth == 0 {
                RayVerdict::Background
            } else {
                RayVerdict::Indirect
            }
        },
        Some(i) => {
            proof {
                let k = choose|k: int| is_nearest_hit(candidates@, k);
                lemma_nearest_hit_unique(candidates@, i as int, k);
            }
            RayVerdict::Surface { hit: i, reflect_depth: depth + 1 }
        },
    }
}

/// A ray beyond the maximum reflection depth takes the indirect colour,
/// whatever it would hit; so where a surface is struck at depth `max_depth`,
/// the reflected ray takes the indirect colour. With `max_depth == 0`, a
/// mirror struck by a primary ray reflects the indirect colour: one bounce, then
/// the cutoff.
pub proof fn lemma_depth_cutoff(depth: nat, max_depth: nat, c: Seq<Option<u64>>, c2: Seq<Option<u64>>)
    requires
        max_depth < usize::MAX,
    ensures
        depth > max_depth ==> ray_verdict(depth, max_depth, c) == RayVerdict::Indirect,
        ray_verdict(depth, max_depth, c) matches RayVerdict::Surface { reflect_depth, .. } ==> {
            &&& depth <= max_depth
            &&& reflect_depth == depth + 1
            &&& depth == max_depth ==> ray_verdict(reflect_depth as nat, max_depth, c2)
                == RayVerdict::Indirect
        },
{
}

/// A primary ray that hits nothing takes the background colour; a secondary
/// (reflected) ray that hits nothing takes the indirect colour.
pub proof fn lemma_miss_colour(depth: nat, max_depth: nat, c: Seq<Option<u64>>)
    requires
        !has_valid_hit(c),
    ensures
        ray_verdict(0, max_depth, c) == RayVerdict::Background,
        depth > 0 ==> ray_verdict(depth, max_depth, c) == RayVerdict::Indirect,
{
}

/// Where two objects are hit at the same, nearest distance, the one earlier in
/// scene order is the surface that colours the ray.
pub proof fn lemma_tie_earlier_object(depth: nat, max_depth: nat, c: Seq<Option<u64>>, i: int, j: int)
    requires
        depth <= max_depth,
        i < j,
        is_valid_candidate(c, i),
        is_valid_candidate(c, j),
        c[i] == c[j],
        forall|k: int| #[trigger] is_valid_candidate(c, k) ==> c[i]->0 <= c[k]->0,
        forall|k: int| 0 <= k < i && #[trigger] is_valid_candidate(c, k) ==> c[i]->0 < c[k]->0,
    ensures
        ray_verdict(depth, max_depth, c) == (RayVerdict::Surface {
            hit: i as usize,
            reflect_depth: (depth + 1) as usize,
        }),
{
    assert(is_nearest_hit(c, i));
    let k = choose|k: int| is_nearest_hit(c, k);
    lemma_nearest_hit_unique(c, i, k);
}

} // verus!
