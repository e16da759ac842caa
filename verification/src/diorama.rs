//! A terrain of cubes under a bounding box and an eight-way tree, which
//! narrow down the cubes that a ray is tested against.

use vstd::prelude::*;
use crate::aabb::{lemma_enclosing_box_is_hit, lemma_nearest_implies_intersects, Aabb};
use crate::cube::Cube;
use crate::fixed::{
    fx_add, fx_div, fx_max, fx_min, fx_mul, fx_sub, greater, lemma_sat_div_monotone,
    lemma_sat_div_sign, lesser, sat_add, sat_div, sat_mul, sat_sub, to_whole, whole, BIAS, FOUR,
    INFINITE, NEG_INFINITE, ONE, TWO,
};
use crate::terrain::{
    determine_material, generate_terrain_heights, should_place_cube, spec_determine_material,
    spec_height, spec_should_place_cube,
};
use crate::octree::{
    lemma_gather_complete, lemma_gathered_in_range, occurrences, views, Octree,
};
use crate::plane::Plane;
use crate::traverse::{
    blocks, bound, closer, cubes_block, improves, is_blocking, keep_closer,
    lemma_scan_cubes_nearest, lemma_scan_cubes_source, scan_cubes, Best, KIND_CUBE,
};
use crate::vector::Vec3;

verus! {

/// A terrain of cubes. `bounding_box_min` and `bounding_box_max` are the
/// corners of a box around all of them; the planes are kept for scenes
/// that add pools of their own and are not searched by the terrain.
pub struct OptimizedDiorama {
    pub cubes: Vec<Cube>,
    pub water_planes: Vec<Plane>,
    pub lava_planes: Vec<Plane>,
    pub bounding_box_min: Vec3,
    pub bounding_box_max: Vec3,
    /// The tree over `cubes`.
    pub tree: Octree,
}

/// The best hit after the cubes named by the first `n` entries of `listed`
/// were tested in order, starting from `best`.
pub open spec fn scan_listed(
    cubes: Seq<Cube>,
    listed: Seq<usize>,
    n: int,
    o: Vec3,
    d: Vec3,
    best: Best,
) -> Best
    decreases n,
{
    if n <= 0 {
        best
    } else {
        closer(
            scan_listed(cubes, listed, n - 1, o, d, best),
            cubes[listed[n - 1] as int].spec_ray_intersect(o, d),
            listed[n - 1],
            KIND_CUBE,
        )
    }
}

/// Whether a cube named by one of the first `n` entries of `listed` blocks
/// the ray before `max_distance`.
pub open spec fn listed_block(
    cubes: Seq<Cube>,
    listed: Seq<usize>,
    n: int,
    o: Vec3,
    d: Vec3,
    max_distance: i64,
) -> bool {
    exists|k: int|
        0 <= k < n && #[trigger] blocks(
            cubes[listed[k] as int].spec_ray_intersect(o, d),
            max_distance,
        )
}

/// The number of columns of the terrain each way.
pub const GRID_SIZE: usize = 12;

/// The number of cells of the terrain: 12 by 12 columns of 7 levels.
pub const CELLS: usize = 1008;

/// How far the bounding box reaches beyond the centers of the cubes: 2.
pub const MARGIN: i64 = 2_000_000;

/// The column of cell `c` along `x`. Cells are counted level by level
/// within a column, column by column along `x`, row by row along `z`.
pub open spec fn cell_x(c: int) -> int {
    (c / 7) % 12
}

pub open spec fn cell_z(c: int) -> int {
    c / 84
}

pub open spec fn cell_level(c: int) -> int {
    c % 7
}

/// Whether cell `c` lies within the height of its column.
pub open spec fn in_column(c: int) -> bool {
    cell_level(c) <= spec_height(cell_x(c), cell_z(c), 12)
}

/// Whether cell `c` holds a cube.
pub open spec fn is_placed(c: int) -> bool {
    in_column(c) && spec_should_place_cube(cell_x(c), cell_z(c), cell_level(c), 12)
}

/// Half the width of the terrain, less half a cube: how far the first
/// column lies from the center.
pub open spec fn spread(cube_size: i64) -> i64 {
    sat_sub(sat_div(sat_mul(whole(12), cube_size), TWO), sat_div(cube_size, TWO))
}

/// The center of cell `c`.
pub open spec fn cell_position(center: Vec3, cube_size: i64, c: int) -> Vec3 {
    Vec3 {
        x: sat_sub(sat_add(center.x, sat_mul(whole(cell_x(c)), cube_size)), spread(cube_size)),
        y: sat_add(center.y, sat_mul(whole(cell_level(c)), cube_size)),
        z: sat_sub(sat_add(center.z, sat_mul(whole(cell_z(c)), cube_size)), spread(cube_size)),
    }
}

/// The cube of cell `c`.
pub open spec fn cell_cube(center: Vec3, cube_size: i64, c: int) -> Cube {
    Cube::spec_new(
        cell_position(center, cube_size, c),
        cube_size,
        spec_determine_material(
            cell_x(c),
            cell_z(c),
            cell_level(c),
            spec_height(cell_x(c), cell_z(c), 12),
        ).spec_material(),
    )
}

/// The cubes of the first `n` cells, in order.
pub open spec fn spec_cubes(center: Vec3, cube_size: i64, n: int) -> Seq<Cube>
    decreases n,
{
    if n <= 0 {
        Seq::empty()
    } else if is_placed(n - 1) {
        spec_cubes(center, cube_size, n - 1).push(cell_cube(center, cube_size, n - 1))
    } else {
        spec_cubes(center, cube_size, n - 1)
    }
}

/// The least and the greatest coordinates of the centers of those of the
/// first `n` cells that lie within their columns, filled or not.
pub open spec fn spec_reach(center: Vec3, cube_size: i64, n: int) -> (Vec3, Vec3)
    decreases n,
{
    if n <= 0 {
        (
            Vec3 { x: INFINITE, y: INFINITE, z: INFINITE },
            Vec3 { x: NEG_INFINITE, y: NEG_INFINITE, z: NEG_INFINITE },
        )
    } else if in_column(n - 1) {
        let r = spec_reach(center, cube_size, n - 1);
        let p = cell_position(center, cube_size, n - 1);
        (
            Vec3 { x: lesser(r.0.x, p.x), y: lesser(r.0.y, p.y), z: lesser(r.0.z, p.z) },
            Vec3 { x: greater(r.1.x, p.x), y: greater(r.1.y, p.y), z: greater(r.1.z, p.z) },
        )
    } else {
        spec_reach(center, cube_size, n - 1)
    }
}

/// The corners of the cube are in order, and the cube lies within the
/// margin around the box from `lo` to `hi`.
pub open spec fn padded(cube: Cube, lo: Vec3, hi: Vec3) -> bool {
    &&& cube.bounds().wf()
    &&& sat_sub(lo.x, MARGIN) <= cube.min.x && cube.max.x <= sat_add(hi.x, MARGIN)
    &&& sat_sub(lo.y, MARGIN) <= cube.min.y && cube.max.y <= sat_add(hi.y, MARGIN)
    &&& sat_sub(lo.z, MARGIN) <= cube.min.z && cube.max.z <= sat_add(hi.z, MARGIN)
}

/// The center of a cell.
fn cell_center(center: &Vec3, cube_size: i64, c: usize) -> (p: Vec3)
    requires
        c < CELLS,
    ensures
        p == cell_position(*center, cube_size, c as int),
{
    let z: usize = c / 84;
    let x: usize = (c / 7) % 12;
    let y_level: usize = c % 7;
    let offset = fx_sub(fx_div(fx_mul(to_whole(GRID_SIZE), cube_size), TWO), fx_div(cube_size, TWO));
    Vec3 {
        x: fx_sub(fx_add(center.x, fx_mul(to_whole(x), cube_size)), offset),
        y: fx_add(center.y, fx_mul(to_whole(y_level), cube_size)),
        z: fx_sub(fx_add(center.z, fx_mul(to_whole(z), cube_size)), offset),
    }
}

/// The box from `lo` to `hi`, widened to hold `p`.
fn widen(lo: &Vec3, hi: &Vec3, p: &Vec3) -> (r: (Vec3, Vec3))
    ensures
        r.0 == (Vec3 { x: lesser(lo.x, p.x), y: lesser(lo.y, p.y), z: lesser(lo.z, p.z) }),
        r.1 == (Vec3 { x: greater(hi.x, p.x), y: greater(hi.y, p.y), z: greater(hi.z, p.z) }),
{
    (
        Vec3 { x: fx_min(lo.x, p.x), y: fx_min(lo.y, p.y), z: fx_min(lo.z, p.z) },
        Vec3 { x: fx_max(hi.x, p.x), y: fx_max(hi.y, p.y), z: fx_max(hi.z, p.z) },
    )
}

/// A cube that lies within the margin around a box lies within the
/// margin around any wider box.
proof fn lemma_padded_wider(cube: Cube, lo: Vec3, hi: Vec3, lower: Vec3, higher: Vec3)
    requires
        padded(cube, lo, hi),
        lower.x <= lo.x && lower.y <= lo.y && lower.z <= lo.z,
        hi.x <= higher.x && hi.y <= higher.y && hi.z <= higher.z,
    ensures
        padded(cube, lower, higher),
{
}

/// A cube of edge up to 4 lies within the margin around any box that
/// holds its center.
proof fn lemma_cube_padded(cube: Cube, p: Vec3, cube_size: i64, lo: Vec3, hi: Vec3)
    requires
        0 <= cube_size <= FOUR,
        cube.min == (Vec3 {
            x: sat_sub(p.x, sat_div(cube_size, TWO)),
            y: sat_sub(p.y, sat_div(cube_size, TWO)),
            z: sat_sub(p.z, sat_div(cube_size, TWO)),
        }),
        cube.max == (Vec3 {
            x: sat_add(p.x, sat_div(cube_size, TWO)),
            y: sat_add(p.y, sat_div(cube_size, TWO)),
            z: sat_add(p.z, sat_div(cube_size, TWO)),
        }),
        lo.x <= p.x <= hi.x,
        lo.y <= p.y <= hi.y,
        lo.z <= p.z <= hi.z,
    ensures
        padded(cube, lo, hi),
{
    lemma_sat_div_sign(cube_size, TWO);
    lemma_sat_div_monotone(cube_size, FOUR, TWO);
    assert(sat_div(FOUR, TWO) == MARGIN) by {
        assert(FOUR * ONE == 4_000_000_000_000);
    }
}

impl OptimizedDiorama {
    /// The bounding box of the scene.
    pub open spec fn bounding_box(self) -> Aabb {
        Aabb { min: self.bounding_box_min, max: self.bounding_box_max }
    }

    /// The scene is in order: the corners of every cube are, the bounding
    /// box holds every cube, and the tree is a tree over the cubes that
    /// lists each once.
    pub open spec fn wf(self) -> bool {
        &&& forall|i: int| 0 <= i < self.cubes@.len() ==> (#[trigger] self.cubes@[i]).bounds().wf()
        &&& forall|i: int|
            0 <= i < self.cubes@.len() ==> self.bounding_box().encloses(
                (#[trigger] self.cubes@[i]).bounds(),
            )
        &&& self.tree.wf(self.cubes@)
        &&& self.tree.lists_each_once(self.cubes@)
    }

    pub open spec fn spec_ray_intersects_bbox(self, o: Vec3, d: Vec3) -> bool {
        self.bounding_box().spec_intersects(o, d)
    }

    /// The nearest hit of a ray among the cubes: nothing for a ray that
    /// misses the bounding box; else the nearest among the cubes that the
    /// tree names for the ray, tested in the order in which it names them.
    pub open spec fn spec_ray_intersect_fast(self, o: Vec3, d: Vec3) -> Best {
        if self.spec_ray_intersects_bbox(o, d) {
            let listed = self.tree.candidates(o, d);
            scan_listed(self.cubes@, listed, listed.len() as int, o, d, None)
        } else {
            None
        }
    }

    /// Whether any cube of the scene blocks the ray before `max_distance`.
    pub open spec fn spec_ray_intersect_shadow_fast(self, o: Vec3, d: Vec3, max_distance: i64) -> bool {
        cubes_block(self.cubes@, self.cubes@.len() as int, o, d, max_distance)
    }

    /// The terrain around `center`, of cubes of edge `cube_size`: a cube
    /// for every cell that is filled, the bounding box of the centers of
    /// the cells with a margin of 2 around it, and the tree over the cubes.
    /// The terrain has no planes of water or lava of its own.
    pub fn new(center: Vec3, cube_size: i64) -> (scene: OptimizedDiorama)
        ensures
            scene.cubes@ == spec_cubes(center, cube_size, CELLS as int),
            scene.water_planes@.len() == 0,
            scene.lava_planes@.len() == 0,
            scene.bounding_box_min == spec_reach(center, cube_size, CELLS as int).0.spec_minus(
                Vec3 { x: MARGIN, y: MARGIN, z: MARGIN },
            ),
            scene.bounding_box_max == spec_reach(center, cube_size, CELLS as int).1.spec_plus(
                Vec3 { x: MARGIN, y: MARGIN, z: MARGIN },
            ),
            views(scene.tree.nodes@) == Octree::spec_build(scene.cubes@),
            scene.tree.wf(scene.cubes@),
            scene.tree.lists_each_once(scene.cubes@),
            0 <= cube_size <= FOUR ==> scene.wf(),
    {
        let mut cubes: Vec<Cube> = Vec::new();
        let terrain_heights = generate_terrain_heights(GRID_SIZE);
        let mut min_pos = Vec3 { x: INFINITE, y: INFINITE, z: INFINITE };
        let mut max_pos = Vec3 { x: NEG_INFINITE, y: NEG_INFINITE, z: NEG_INFINITE };
        let mut c: usize = 0;
        while c < CELLS
            invariant
                c <= CELLS,
                terrain_heights@.len() == 12,
                forall|z: int| 0 <= z < 12 ==> (#[trigger] terrain_heights@[z])@.len() == 12,
                forall|z: int, x: int|
                    0 <= z < 12 && 0 <= x < 12 ==> #[trigger] terrain_heights@[z]@[x]
                        == spec_height(x, z, 12),
                cubes@ == spec_cubes(center, cube_size, c as int),
                (min_pos, max_pos) == spec_reach(center, cube_size, c as int),
                0 <= cube_size <= FOUR ==> forall|k: int|
                    0 <= k < cubes@.len() ==> #[trigger] padded(cubes@[k], min_pos, max_pos),
            decreases CELLS - c,
        {
            let z: usize = c / 84;
            let x: usize = (c / 7) % 12;
            let y_level: usize = c % 7;
            let height = terrain_heights[z][x];
            assert(terrain_heights@[z as int]@[x as int] == spec_height(x as int, z as int, 12));
            if y_level <= height {
                let pos = cell_center(&center, cube_size, c);
                let ghost old_min = min_pos;
                let ghost old_max = max_pos;
                let wider = widen(&min_pos, &max_pos, &pos);
                min_pos = wider.0;
                max_pos = wider.1;
                proof {
                    if 0 <= cube_size <= FOUR {
                        assert forall|k: int| 0 <= k < cubes@.len() implies #[trigger] padded(
                            cubes@[k],
                            min_pos,
                            max_pos,
                        ) by {
                            lemma_padded_wider(cubes@[k], old_min, old_max, min_pos, max_pos);
                        }
                    }
                }
                let material = determine_material(x, z, y_level, height).material();
                if should_place_cube(x, z, y_level, height, GRID_SIZE) {
                    let cube = Cube::new(pos, cube_size, material);
                    let ghost before = cubes@;
                    cubes.push(cube);
                    proof {
                        if 0 <= cube_size <= FOUR {
                            lemma_cube_padded(cube, pos, cube_size, min_pos, max_pos);
                            assert forall|k: int| 0 <= k < cubes@.len() implies #[trigger] padded(
                                cubes@[k],
                                min_pos,
                                max_pos,
                            ) by {
                                if k < before.len() {
                                    assert(padded(before[k], min_pos, max_pos));
                                }
                            }
                        }
                    }
                }
            }
            c = c + 1;
        }
        let tree = Octree::build(&cubes);
        let margin = Vec3 { x: MARGIN, y: MARGIN, z: MARGIN };
        let scene = OptimizedDiorama {
            cubes,
            water_planes: Vec::new(),
            lava_planes: Vec::new(),
            bounding_box_min: min_pos.minus(&margin),
            bounding_box_max: max_pos.plus(&margin),
            tree,
        };
        proof {
            if 0 <= cube_size <= FOUR {
                assert forall|i: int| 0 <= i < scene.cubes@.len() implies (#[trigger] scene.cubes@[i]).bounds().wf()
                    && scene.bounding_box().encloses(scene.cubes@[i].bounds()) by {
                    assert(padded(scene.cubes@[i], min_pos, max_pos));
                }
            }
        }
        scene
    }

    /// Whether the ray passes through the bounding box ahead of its origin.
    pub fn ray_intersects_bbox(&self, ray_origin: &Vec3, ray_direction: &Vec3) -> (hit: bool)
        ensures
            hit == self.spec_ray_intersects_bbox(*ray_origin, *ray_direction),
    {
        let bbox = Aabb { min: self.bounding_box_min, max: self.bounding_box_max };
        bbox.intersects(ray_origin, ray_direction)
    }

    /// The nearest hit of a ray among the cubes: the index of the cube, the
    /// distance, and the tag of a cube.
    pub fn ray_intersect_fast(&self, ray_origin: &Vec3, ray_direction: &Vec3) -> (r: Option<
        (usize, i64, u8),
    >)
        requires
            self.wf(),
        ensures
            r == self.spec_ray_intersect_fast(*ray_origin, *ray_direction),
            r.is_some() ==> r.unwrap().0 < self.cubes@.len() && r.unwrap().2 == KIND_CUBE
                && r.unwrap().1 > BIAS,
    {
        proof {
            self.lemma_fast_hit_is_real(*ray_origin, *ray_direction);
        }
        if !self.ray_intersects_bbox(ray_origin, ray_direction) {
            return None;
        }
        let listed = self.tree.gather(ray_origin, ray_direction);
        proof {
            lemma_gathered_in_range(
                self.tree.nodes@,
                self.cubes@,
                self.tree.root(),
                *ray_origin,
                *ray_direction,
            );
        }
        let mut best: Best = None;
        let mut k: usize = 0;
        while k < listed.len()
            invariant
                k <= listed@.len(),
                forall|j: int| 0 <= j < listed@.len() ==> #[trigger] listed@[j] < self.cubes@.len(),
                best == scan_listed(
                    self.cubes@,
                    listed@,
                    k as int,
                    *ray_origin,
                    *ray_direction,
                    None,
                ),
            decreases listed@.len() - k,
        {
            let index = listed[k];
            best = keep_closer(
                best,
                self.cubes[index].ray_intersect(ray_origin, ray_direction),
                index,
                KIND_CUBE,
            );
            k = k + 1;
        }
        best
    }

    /// Whether any cube of the scene blocks the ray before `max_distance`.
    /// Only the cubes that the tree names for the ray are tested.
    pub fn ray_intersect_shadow_fast(
        &self,
        ray_origin: &Vec3,
        ray_direction: &Vec3,
        max_distance: i64,
    ) -> (shadowed: bool)
        requires
            self.wf(),
        ensures
            shadowed == self.spec_ray_intersect_shadow_fast(
                *ray_origin,
                *ray_direction,
                max_distance,
            ),
    {
        let listed = self.tree.gather(ray_origin, ray_direction);
        proof {
            lemma_gathered_in_range(
                self.tree.nodes@,
                self.cubes@,
                self.tree.root(),
                *ray_origin,
                *ray_direction,
            );
        }
        let mut k: usize = 0;
        while k < listed.len()
            invariant
                k <= listed@.len(),
                forall|j: int| 0 <= j < listed@.len() ==> #[trigger] listed@[j] < self.cubes@.len(),
                !listed_block(
                    self.cubes@,
                    listed@,
                    k as int,
                    *ray_origin,
                    *ray_direction,
                    max_distance,
                ),
            decreases listed@.len() - k,
        {
            let index = listed[k];
            if is_blocking(
                self.cubes[index].ray_intersect(ray_origin, ray_direction),
                max_distance,
            ) {
                assert(blocks(
                    self.cubes@[index as int].spec_ray_intersect(*ray_origin, *ray_direction),
                    max_distance,
                ));
                return true;
            }
            k = k + 1;
        }
        proof {
            if cubes_block(
                self.cubes@,
                self.cubes@.len() as int,
                *ray_origin,
                *ray_direction,
                max_distance,
            ) {
                let j = choose|j: int|
                    0 <= j < self.cubes@.len() && #[trigger] blocks(
                        self.cubes@[j].spec_ray_intersect(*ray_origin, *ray_direction),
                        max_distance,
                    );
                assert(self.cubes@.len() == self.cubes.len());
                assert(j as usize == j);
                self.lemma_candidates_complete(*ray_origin, *ray_direction, j as usize);
                let at = choose|at: int| 0 <= at < listed@.len() && listed@[at] == j as usize;
                assert(blocks(
                    self.cubes@[listed@[at] as int].spec_ray_intersect(
                        *ray_origin,
                        *ray_direction,
                    ),
                    max_distance,
                ));
            }
        }
        false
    }

    /// The tree leaves out nothing that the ray meets: every cube of the
    /// scene that the ray meets is among the cubes named for the ray.
    pub proof fn lemma_candidates_complete(self, o: Vec3, d: Vec3, i: usize)
        requires
            self.wf(),
            i < self.cubes@.len(),
            self.cubes@[i as int].spec_ray_intersect(o, d).is_some(),
        ensures
            self.tree.candidates(o, d).contains(i),
            self.spec_ray_intersects_bbox(o, d),
    {
        assert(occurrences(self.tree.nodes@, self.tree.root(), i) == 1);
        lemma_gather_complete(self.tree.nodes@, self.cubes@, self.tree.root(), o, d, i);
        lemma_nearest_implies_intersects(self.cubes@[i as int].bounds(), o, d);
        lemma_enclosing_box_is_hit(self.cubes@[i as int].bounds(), self.bounding_box(), o, d);
    }

    /// The hit that `ray_intersect_fast` returns is a hit on the cube it
    /// names, at the distance at which the ray meets that cube.
    pub proof fn lemma_fast_hit_is_real(self, o: Vec3, d: Vec3)
        requires
            self.wf(),
        ensures
            match self.spec_ray_intersect_fast(o, d) {
                None => true,
                Some((index, distance, kind)) => {
                    &&& index < self.cubes@.len()
                    &&& kind == KIND_CUBE
                    &&& distance > BIAS
                    &&& self.cubes@[index as int].spec_ray_intersect(o, d) == Some(distance)
                },
            },
    {
        let listed = self.tree.candidates(o, d);
        lemma_gathered_in_range(self.tree.nodes@, self.cubes@, self.tree.root(), o, d);
        lemma_scan_listed_source(self.cubes@, listed, listed.len() as int, o, d, None);
    }

    /// No cube of the scene is met nearer than the hit that
    /// `ray_intersect_fast` returns: where the ray meets a cube at a
    /// distance that counts, a hit is returned, at that distance at most.
    pub proof fn lemma_fast_hit_is_nearest(self, o: Vec3, d: Vec3, i: usize)
        requires
            self.wf(),
            i < self.cubes@.len(),
            improves(None, self.cubes@[i as int].spec_ray_intersect(o, d)),
        ensures
            self.spec_ray_intersect_fast(o, d).is_some(),
            self.spec_ray_intersect_fast(o, d).unwrap().1 <= self.cubes@[i as int].spec_ray_intersect(
                o,
                d,
            ).unwrap(),
    {
        self.lemma_candidates_complete(o, d, i);
        let listed = self.tree.candidates(o, d);
        let at = choose|at: int| 0 <= at < listed.len() && listed[at] == i;
        lemma_scan_listed_nearest(self.cubes@, listed, listed.len() as int, o, d, None, at);
    }

    /// The tree only spares tests: the search through the tree finds a hit
    /// where testing every cube finds one, and at the same distance.
    pub proof fn lemma_fast_matches_full_scan(self, o: Vec3, d: Vec3)
        requires
            self.wf(),
        ensures
            self.spec_ray_intersect_fast(o, d).is_some() == scan_cubes(
                self.cubes@,
                self.cubes@.len() as int,
                o,
                d,
                None,
            ).is_some(),
            bound(self.spec_ray_intersect_fast(o, d)) == bound(
                scan_cubes(self.cubes@, self.cubes@.len() as int, o, d, None),
            ),
    {
        let fast = self.spec_ray_intersect_fast(o, d);
        let full = scan_cubes(self.cubes@, self.cubes@.len() as int, o, d, None);
        assert(self.cubes@.len() == self.cubes.len());
        self.lemma_fast_hit_is_real(o, d);
        lemma_scan_cubes_source(self.cubes@, self.cubes@.len() as int, o, d, None);
        if full.is_some() {
            self.lemma_fast_hit_is_nearest(o, d, full.unwrap().0);
        }
        if fast.is_some() {
            let listed = self.tree.candidates(o, d);
            lemma_scan_listed_source(self.cubes@, listed, listed.len() as int, o, d, None);
            lemma_scan_cubes_nearest(
                self.cubes@,
                self.cubes@.len() as int,
                o,
                d,
                None,
                fast.unwrap().0 as int,
            );
        }
    }

    /// A ray that is in shadow within some distance is in shadow within any
    /// greater distance.
    pub proof fn lemma_shadow_monotone(self, o: Vec3, d: Vec3, near: i64, far: i64)
        requires
            near <= far,
            self.spec_ray_intersect_shadow_fast(o, d, near),
        ensures
            self.spec_ray_intersect_shadow_fast(o, d, far),
    {
        crate::traverse::lemma_cubes_block_monotone(
            self.cubes@,
            self.cubes@.len() as int,
            o,
            d,
            near,
            far,
        );
    }
}

/// What a scan over listed cubes returns is what it started from, or a hit
/// on one of the cubes it went through, at the distance at which the ray
/// meets it.
pub proof fn lemma_scan_listed_source(
    cubes: Seq<Cube>,
    listed: Seq<usize>,
    n: int,
    o: Vec3,
    d: Vec3,
    best: Best,
)
    requires
        n <= listed.len(),
    ensures
        bound(scan_listed(cubes, listed, n, o, d, best)) <= bound(best),
        scan_listed(cubes, listed, n, o, d, best) == best || ({
            let r = scan_listed(cubes, listed, n, o, d, best).unwrap();
            &&& scan_listed(cubes, listed, n, o, d, best).is_some()
            &&& exists|k: int| 0 <= k < n && listed[k] == r.0
            &&& r.2 == KIND_CUBE
            &&& cubes[r.0 as int].spec_ray_intersect(o, d) == Some(r.1)
            &&& BIAS < r.1 < INFINITE
        }),
    decreases n,
{
    if n > 0 {
        lemma_scan_listed_source(cubes, listed, n - 1, o, d, best);
        let prev = scan_listed(cubes, listed, n - 1, o, d, best);
        let now = scan_listed(cubes, listed, n, o, d, best);
        if now != prev {
            assert(listed[n - 1] == now.unwrap().0);
        } else if prev != best {
            let k = choose|k: int| 0 <= k < n - 1 && listed[k] == prev.unwrap().0;
            assert(0 <= k < n && listed[k] == now.unwrap().0);
        }
    }
}

/// A scan over listed cubes ends at or under every hit that counts among
/// the cubes it went through.
pub proof fn lemma_scan_listed_nearest(
    cubes: Seq<Cube>,
    listed: Seq<usize>,
    n: int,
    o: Vec3,
    d: Vec3,
    best: Best,
    k: int,
)
    requires
        0 <= k < n <= listed.len(),
    ensures
        improves(None, cubes[listed[k] as int].spec_ray_intersect(o, d)) ==> bound(
            scan_listed(cubes, listed, n, o, d, best),
        ) <= cubes[listed[k] as int].spec_ray_intersect(o, d).unwrap() && scan_listed(
            cubes,
            listed,
            n,
            o,
            d,
            best,
        ).is_some(),
    decreases n,
{
    if k < n - 1 {
        lemma_scan_listed_nearest(cubes, listed, n - 1, o, d, best, k);
    }
    lemma_scan_listed_source(cubes, listed, n - 1, o, d, best);
}

} // verus!
