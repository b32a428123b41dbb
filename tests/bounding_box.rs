use ray_tracer::aabb::{get_first_hit, is_hit, AxisProjection, FirstHit};

/// An integer that orders as `v` does, for values that are not NaN.
fn key(v: f64) -> i64 {
    let b = (v + 0.0).to_bits() as i64;
    if b < 0 { b ^ i64::MAX } else { b }
}

/// Projects a ray onto the slabs of the box `[start, end]`.
fn project(pos: [f64; 3], dir: [f64; 3], start: [f64; 3], end: [f64; 3]) -> [AxisProjection; 3] {
    let mut r = [AxisProjection::Crossing { t1: 0, t2: 0 }; 3];
    for d in 0..3 {
        if dir[d].abs() < 1e-10 {
            r[d] = AxisProjection::Parallel { origin: key(pos[d]), start: key(start[d]), end: key(end[d]) };
        } else {
            r[d] = AxisProjection::Crossing {
                t1: key((start[d] - pos[d]) / dir[d]),
                t2: key((end[d] - pos[d]) / dir[d]),
            };
        }
    }
    r
}

const LO: [f64; 3] = [-1.0, -1.0, -1.0];
const HI: [f64; 3] = [1.0, 1.0, 1.0];

#[test]
fn order_keys_follow_float_order() {
    let v = [-f64::INFINITY, -3.5, -1e-300, -0.0, 0.0, 1e-300, 2.0, f64::MAX, f64::INFINITY];
    for i in 0..v.len() {
        for j in 0..v.len() {
            assert_eq!(v[i] < v[j], key(v[i]) < key(v[j]));
        }
    }
    assert_eq!(key(0.0), 0);
}

#[test]
fn ray_towards_box_hits_front_face() {
    let axes = project([0.0, 0.0, 5.0], [0.0, 0.0, -1.0], LO, HI);
    assert!(is_hit(axes));
    assert_eq!(get_first_hit(axes), FirstHit::At { axis: 2, far: false });
    assert_eq!(axes[2], AxisProjection::Crossing { t1: key(6.0), t2: key(4.0) });
}

#[test]
fn ray_away_from_box_misses() {
    let axes = project([0.0, 0.0, 5.0], [0.0, 0.0, 1.0], LO, HI);
    assert!(!is_hit(axes));
    assert_eq!(get_first_hit(axes), FirstHit::Miss);
}

#[test]
fn parallel_ray_outside_slab_misses() {
    let axes = project([3.0, 0.0, 5.0], [0.0, 0.0, -1.0], LO, HI);
    assert!(!is_hit(axes));
}

#[test]
fn ray_from_inside_hits_at_exit() {
    let axes = project([0.5, 0.0, 0.0], [1.0, 1.0, 1.0], LO, HI);
    assert!(is_hit(axes));
    assert_eq!(get_first_hit(axes), FirstHit::At { axis: 0, far: true });
    let inside = project([0.2, -0.3, 0.9], [-0.3, 0.8, 0.1], LO, HI);
    assert!(is_hit(inside));
}

#[test]
fn diagonal_ray_passing_beside_box_misses() {
    // Crosses the x slab for t in [4, 6] and the z slab for t in [-1, 1].
    let axes = project([5.0, 0.0, 0.0], [-1.0, 0.0, 1.0], LO, HI);
    assert!(!is_hit(axes));
    assert_eq!(get_first_hit(axes), FirstHit::Miss);
}

#[test]
fn ray_parallel_to_every_slab_inside_is_unbounded() {
    let axes = project([0.0, 0.0, 0.0], [0.0, 0.0, 0.0], LO, HI);
    assert!(is_hit(axes));
    assert_eq!(get_first_hit(axes), FirstHit::Unbounded);
}
