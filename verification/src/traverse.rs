//! Scans over the primitives of a scene: the nearest hit of a ray, and
//! whether anything stands between the origin of a ray and a given distance.
//!
//! A hit counts where its distance exceeds `BIAS`, so that a ray which starts
//! on a surface does not hit that surface. A scan keeps the first hit among
//! those of equal distance.

use vstd::prelude::*;
use crate::cube::Cube;
use crate::fixed::{BIAS, INFINITE};
use crate::plane::Plane;
use crate::vector::Vec3;

verus! {

/// The tag of a hit on a cube of the scene.
pub const KIND_CUBE: u8 = 1;

/// The tag of a hit on the cube in the middle of a grid.
pub const KIND_CENTER: u8 = 2;

/// The tag of a hit on a plane of water.
pub const KIND_WATER: u8 = 3;

/// The tag of a hit on a plane of lava.
pub const KIND_LAVA: u8 = 4;

/// The tag of a hit on the floor.
pub const KIND_FLOOR: u8 = 5;

/// The best hit of a scan so far: the index of the primitive within its
/// collection, the distance, and the tag of the collection.
pub type Best = Option<(usize, i64, u8)>;

/// The distance that a further hit has to stay under.
pub open spec fn bound(best: Best) -> i64 {
    match best {
        Some(b) => b.1,
        None => INFINITE,
    }
}

/// Whether a distance counts as a hit that improves on `best`.
pub open spec fn improves(best: Best, t: Option<i64>) -> bool {
    t.is_some() && t.unwrap() > BIAS && t.unwrap() < bound(best)
}

/// The best hit after one more primitive was tested.
pub open spec fn closer(best: Best, t: Option<i64>, index: usize, kind: u8) -> Best {
    if improves(best, t) {
        Some((index, t.unwrap(), kind))
    } else {
        best
    }
}

/// The best hit after the first `n` cubes were tested in order, starting from `best`.
pub open spec fn scan_cubes(cubes: Seq<Cube>, n: int, o: Vec3, d: Vec3, best: Best) -> Best
    decreases n,
{
    if n <= 0 {
        best
    } else {
        closer(
            scan_cubes(cubes, n - 1, o, d, best),
            cubes[n - 1].spec_ray_intersect(o, d),
            (n - 1) as usize,
            KIND_CUBE,
        )
    }
}

/// The best hit after the first `n` planes were tested in order, starting from `best`.
pub open spec fn scan_planes(
    planes: Seq<Plane>,
    n: int,
    o: Vec3,
    d: Vec3,
    best: Best,
    kind: u8,
) -> Best
    decreases n,
{
    if n <= 0 {
        best
    } else {
        closer(
            scan_planes(planes, n - 1, o, d, best, kind),
            planes[n - 1].spec_ray_intersect(o, d),
            (n - 1) as usize,
            kind,
        )
    }
}

/// Whether a hit lies strictly between the bias and `max_distance`.
pub open spec fn blocks(t: Option<i64>, max_distance: i64) -> bool {
    t.is_some() && BIAS < t.unwrap() < max_distance
}

/// Whether one of the first `n` cubes blocks the ray before `max_distance`.
pub open spec fn cubes_block(cubes: Seq<Cube>, n: int, o: Vec3, d: Vec3, max_distance: i64) -> bool {
    exists|j: int| 0 <= j < n && #[trigger] blocks(cubes[j].spec_ray_intersect(o, d), max_distance)
}

/// Whether one of the first `n` planes blocks the ray before `max_distance`.
pub open spec fn planes_block(
    planes: Seq<Plane>,
    n: int,
    o: Vec3,
    d: Vec3,
    max_distance: i64,
) -> bool {
    exists|j: int| 0 <= j < n && #[trigger] blocks(planes[j].spec_ray_intersect(o, d), max_distance)
}

/// Tests one more primitive against the best hit so far.
pub fn keep_closer(best: Best, t: Option<i64>, index: usize, kind: u8) -> (r: Best)
    ensures
        r == closer(best, t, index, kind),
{
    let limit = match best {
        Some(b) => b.1,
        None => INFINITE,
    };
    match t {
        Some(distance) => {
            if distance > BIAS && distance < limit {
                Some((index, distance, kind))
            } else {
                best
            }
        },
        None => best,
    }
}

/// The nearest hit of a ray among `cubes`, or `best` where none improves on it.
pub fn nearest_cube(cubes: &Vec<Cube>, o: &Vec3, d: &Vec3, best: Best) -> (r: Best)
    ensures
        r == scan_cubes(cubes@, cubes@.len() as int, *o, *d, best),
{
    let mut found = best;
    let mut i: usize = 0;
    while i < cubes.len()
        invariant
            i <= cubes.len(),
            found == scan_cubes(cubes@, i as int, *o, *d, best),
        decreases cubes.len() - i,
    {
        found = keep_closer(found, cubes[i].ray_intersect(o, d), i, KIND_CUBE);
        i = i + 1;
    }
    found
}

/// The nearest hit of a ray among `planes`, or `best` where none improves on it.
pub fn nearest_plane(planes: &Vec<Plane>, o: &Vec3, d: &Vec3, best: Best, kind: u8) -> (r: Best)
    ensures
        r == scan_planes(planes@, planes@.len() as int, *o, *d, best, kind),
{
    let mut found = best;
    let mut i: usize = 0;
    while i < planes.len()
        invariant
            i <= planes.len(),
            found == scan_planes(planes@, i as int, *o, *d, best, kind),
        decreases planes.len() - i,
    {
        found = keep_closer(found, planes[i].ray_intersect(o, d), i, kind);
        i = i + 1;
    }
    found
}

/// Whether a hit lies strictly between the bias and `max_distance`.
pub fn is_blocking(t: Option<i64>, max_distance: i64) -> (b: bool)
    ensures
        b == blocks(t, max_distance),
{
    match t {
        Some(distance) => distance > BIAS && distance < max_distance,
        None => false,
    }
}

/// Whether any of `cubes` blocks the ray before `max_distance`. Stops at the
/// first that does.
pub fn any_cube_blocks(cubes: &Vec<Cube>, o: &Vec3, d: &Vec3, max_distance: i64) -> (b: bool)
    ensures
        b == cubes_block(cubes@, cubes@.len() as int, *o, *d, max_distance),
{
    let mut i: usize = 0;
    while i < cubes.len()
        invariant
            i <= cubes.len(),
            !cubes_block(cubes@, i as int, *o, *d, max_distance),
        decreases cubes.len() - i,
    {
        if is_blocking(cubes[i].ray_intersect(o, d), max_distance) {
            return true;
        }
        i = i + 1;
    }
    false
}

/// A scan never loosens the bound, and ends at or under every hit that
/// counts among the cubes it went through.
pub proof fn lemma_scan_cubes_nearest(cubes: Seq<Cube>, n: int, o: Vec3, d: Vec3, best: Best, j: int)
    requires
        0 <= j < n <= cubes.len() <= usize::MAX,
    ensures
        bound(scan_cubes(cubes, n, o, d, best)) <= bound(best),
        improves(None, cubes[j].spec_ray_intersect(o, d)) ==> bound(
            scan_cubes(cubes, n, o, d, best),
        ) <= cubes[j].spec_ray_intersect(o, d).unwrap(),
    decreases n,
{
    if j < n - 1 {
        lemma_scan_cubes_nearest(cubes, n - 1, o, d, best, j);
    } else {
        lemma_scan_cubes_source(cubes, n - 1, o, d, best);
    }
}

/// What a scan over cubes returns is what it started from, or a hit on one
/// of the cubes it went through, at the distance at which the ray meets it.
pub proof fn lemma_scan_cubes_source(cubes: Seq<Cube>, n: int, o: Vec3, d: Vec3, best: Best)
    requires
        n <= cubes.len() <= usize::MAX,
    ensures
        bound(scan_cubes(cubes, n, o, d, best)) <= bound(best),
        scan_cubes(cubes, n, o, d, best) == best || ({
            let r = scan_cubes(cubes, n, o, d, best).unwrap();
            &&& scan_cubes(cubes, n, o, d, best).is_some()
            &&& 0 <= r.0 < n
            &&& r.2 == KIND_CUBE
            &&& cubes[r.0 as int].spec_ray_intersect(o, d) == Some(r.1)
            &&& BIAS < r.1 < INFINITE
        }),
    decreases n,
{
    if n > 0 {
        lemma_scan_cubes_source(cubes, n - 1, o, d, best);
    }
}

/// A scan over planes never loosens the bound, and ends at or under every
/// hit that counts among the planes it went through.
pub proof fn lemma_scan_planes_nearest(
    planes: Seq<Plane>,
    n: int,
    o: Vec3,
    d: Vec3,
    best: Best,
    kind: u8,
    j: int,
)
    requires
        0 <= j < n <= planes.len() <= usize::MAX,
    ensures
        bound(scan_planes(planes, n, o, d, best, kind)) <= bound(best),
        improves(None, planes[j].spec_ray_intersect(o, d)) ==> bound(
            scan_planes(planes, n, o, d, best, kind),
        ) <= planes[j].spec_ray_intersect(o, d).unwrap(),
    decreases n,
{
    if j < n - 1 {
        lemma_scan_planes_nearest(planes, n - 1, o, d, best, kind, j);
    } else {
        lemma_scan_planes_source(planes, n - 1, o, d, best, kind);
    }
}

/// What a scan over planes returns is what it started from, or a hit on one
/// of the planes it went through, at the distance at which the ray meets it.
pub proof fn lemma_scan_planes_source(
    planes: Seq<Plane>,
    n: int,
    o: Vec3,
    d: Vec3,
    best: Best,
    kind: u8,
)
    requires
        n <= planes.len() <= usize::MAX,
    ensures
        bound(scan_planes(planes, n, o, d, best, kind)) <= bound(best),
        scan_planes(planes, n, o, d, best, kind) == best || ({
            let r = scan_planes(planes, n, o, d, best, kind).unwrap();
            &&& scan_planes(planes, n, o, d, best, kind).is_some()
            &&& 0 <= r.0 < n
            &&& r.2 == kind
            &&& planes[r.0 as int].spec_ray_intersect(o, d) == Some(r.1)
            &&& BIAS < r.1 < INFINITE
        }),
    decreases n,
{
    if n > 0 {
        lemma_scan_planes_source(planes, n - 1, o, d, best, kind);
    }
}

/// What blocks a ray before some distance blocks it before any greater one.
pub proof fn lemma_cubes_block_monotone(
    cubes: Seq<Cube>,
    n: int,
    o: Vec3,
    d: Vec3,
    near: i64,
    far: i64,
)
    requires
        near <= far,
        cubes_block(cubes, n, o, d, near),
    ensures
        cubes_block(cubes, n, o, d, far),
{
    let j = choose|j: int|
        0 <= j < n && #[trigger] blocks(cubes[j].spec_ray_intersect(o, d), near);
    assert(blocks(cubes[j].spec_ray_intersect(o, d), far));
}

} // verus!
