//! A scene of layered cubes around one larger cube, with planes of water and
//! of lava, tested primitive by primitive.

use vstd::prelude::*;
use crate::cube::Cube;
use crate::fixed::{
    fx_add, fx_div, fx_mul, fx_sub, lemma_int_sqrt_unique, lemma_sat_mul_unit, sat_add, sat_div,
    sat_mul, sat_sub, to_whole, whole, BIAS, NEG_ONE, ONE, TWO,
};
use crate::material::Surface;
use crate::plane::Plane;
use crate::traverse::{
    any_cube_blocks, blocks, closer, cubes_block, improves, is_blocking, keep_closer,
    lemma_cubes_block_monotone, lemma_scan_cubes_nearest, lemma_scan_cubes_source,
    lemma_scan_planes_nearest, lemma_scan_planes_source, nearest_cube, nearest_plane, scan_cubes,
    scan_planes, Best, KIND_CENTER, KIND_CUBE, KIND_LAVA, KIND_WATER,
};
use crate::vector::Vec3;

verus! {

/// Layers of cubes, the cube in their middle, and the planes of two pools.
pub struct SimpleCubeGrid {
    pub cubes: Vec<Cube>,
    pub center_cube: Cube,
    pub water_planes: Vec<Plane>,
    pub lava_planes: Vec<Plane>,
}

/// The number of places for cubes: three layers of 5 by 5.
pub const PLACES: usize = 75;

/// The column of place `c` along `x`. Places are counted along `x`, row
/// by row along `z`, layer by layer downward.
pub open spec fn place_x(c: int) -> int {
    c % 5
}

pub open spec fn place_z(c: int) -> int {
    (c % 25) / 5
}

pub open spec fn place_layer(c: int) -> int {
    c / 25
}

/// The places of the top layer that are left empty for the center cube.
pub open spec fn is_hole(c: int) -> bool {
    place_layer(c) == 0 && (place_x(c) == 1 || place_x(c) == 2) && (place_z(c) == 1 || place_z(c)
        == 2)
}

/// The distance between the centers of neighbouring cubes: a little less
/// than their edge.
pub open spec fn grid_spacing(cube_size: i64) -> i64 {
    sat_mul(cube_size, 990_000)
}

/// How far the first column lies from the center.
pub open spec fn grid_spread(cube_size: i64) -> i64 {
    sat_sub(
        sat_div(sat_mul(whole(5), grid_spacing(cube_size)), TWO),
        sat_div(grid_spacing(cube_size), TWO),
    )
}

/// How far a layer lies under the top one.
pub open spec fn layer_drop(cube_size: i64, layer: int) -> i64 {
    if layer == 0 {
        0
    } else if layer == 1 {
        sat_mul(cube_size, 1_010_000)
    } else {
        sat_mul(cube_size, 2_020_000)
    }
}

/// What a layer is made of: grass on top, dirt under it, stone below.
pub open spec fn layer_surface(layer: int) -> Surface {
    if layer == 0 {
        Surface::GrassTop
    } else if layer == 1 {
        Surface::DirtLayer
    } else {
        Surface::StoneLayer
    }
}

/// The center of the cube at place `c`.
pub open spec fn place_position(center: Vec3, cube_size: i64, c: int) -> Vec3 {
    Vec3 {
        x: sat_sub(
            sat_add(center.x, sat_mul(whole(place_x(c)), grid_spacing(cube_size))),
            grid_spread(cube_size),
        ),
        y: sat_sub(center.y, layer_drop(cube_size, place_layer(c))),
        z: sat_sub(
            sat_add(center.z, sat_mul(whole(place_z(c)), grid_spacing(cube_size))),
            grid_spread(cube_size),
        ),
    }
}

/// The cube at place `c`.
pub open spec fn place_cube(center: Vec3, cube_size: i64, c: int) -> Cube {
    Cube::spec_new(
        place_position(center, cube_size, c),
        cube_size,
        layer_surface(place_layer(c)).spec_material(),
    )
}

/// The cubes of the first `n` places, in order, the holes left out.
pub open spec fn spec_grid_cubes(center: Vec3, cube_size: i64, n: int) -> Seq<Cube>
    decreases n,
{
    if n <= 0 {
        Seq::empty()
    } else if is_hole(n - 1) {
        spec_grid_cubes(center, cube_size, n - 1)
    } else {
        spec_grid_cubes(center, cube_size, n - 1).push(place_cube(center, cube_size, n - 1))
    }
}

/// The larger cube that stands in the middle of the top layer.
pub open spec fn spec_center_cube(center: Vec3, cube_size: i64) -> Cube {
    Cube::spec_new(
        Vec3 { x: center.x, y: sat_add(center.y, sat_mul(cube_size, 700_000)), z: center.z },
        sat_mul(cube_size, 1_400_000),
        Surface::CenterBlock.spec_material(),
    )
}

/// The unit vector that points up.
pub open spec fn up() -> Vec3 {
    Vec3 { x: 0, y: ONE, z: 0 }
}

/// Plane `i` of a pool: level planes beside the grid, at `side` times 3.5
/// edges from the center along `x`, each a little higher and one edge
/// further along `z` than the one before.
pub open spec fn pool_plane(center: Vec3, cube_size: i64, i: int, side: i64, surface: Surface) -> Plane {
    Plane {
        point: Vec3 {
            x: sat_add(center.x, sat_mul(side, sat_mul(cube_size, 3_500_000))),
            y: sat_add(sat_sub(center.y, sat_mul(cube_size, 300_000)), (i * 100_000) as i64),
            z: sat_add(center.z, sat_mul(whole(i - 1), cube_size)),
        },
        normal: up(),
        material: surface.spec_material(),
    }
}

/// The first `n` planes of a pool.
pub open spec fn spec_pool(center: Vec3, cube_size: i64, n: int, side: i64, surface: Surface) -> Seq<
    Plane,
>
    decreases n,
{
    if n <= 0 {
        Seq::empty()
    } else {
        spec_pool(center, cube_size, n - 1, side, surface).push(
            pool_plane(center, cube_size, n - 1, side, surface),
        )
    }
}

/// The vector that points up has unit length.
pub proof fn lemma_up_is_unit()
    ensures
        up().spec_length() == ONE,
        up().spec_normalize() == up(),
{
    lemma_sat_mul_unit(0);
    lemma_sat_mul_unit(ONE);
    assert(ONE * ONE == 1_000_000_000_000);
    assert(1_000_001 * 1_000_001 == 1_000_002_000_001);
    lemma_int_sqrt_unique(1_000_000_000_000, 1_000_000);
    assert(0 * ONE == 0);
}

/// The three planes of a pool.
fn pool(center: &Vec3, cube_size: i64, side: i64, surface: Surface) -> (planes: Vec<Plane>)
    ensures
        planes@ == spec_pool(*center, cube_size, 3, side, surface),
{
    let mut planes: Vec<Plane> = Vec::new();
    let mut i: usize = 0;
    while i < 3
        invariant
            i <= 3,
            planes@ == spec_pool(*center, cube_size, i as int, side, surface),
        decreases 3 - i,
    {
        proof {
            lemma_up_is_unit();
        }
        let along: i64 = (i as i64 - 1) * 1_000_000;
        let point = Vec3 {
            x: fx_add(center.x, fx_mul(side, fx_mul(cube_size, 3_500_000))),
            y: fx_add(fx_sub(center.y, fx_mul(cube_size, 300_000)), (i as i64) * 100_000),
            z: fx_add(center.z, fx_mul(along, cube_size)),
        };
        planes.push(Plane::new(point, Vec3 { x: 0, y: ONE, z: 0 }, surface.material()));
        i = i + 1;
    }
    planes
}

/// The center of the cube at a place.
fn place_center(center: &Vec3, cube_size: i64, c: usize) -> (p: Vec3)
    requires
        c < PLACES,
    ensures
        p == place_position(*center, cube_size, c as int),
{
    let x: usize = c % 5;
    let z: usize = (c % 25) / 5;
    let layer: usize = c / 25;
    let spacing = fx_mul(cube_size, 990_000);
    let offset = fx_sub(fx_div(fx_mul(to_whole(5), spacing), TWO), fx_div(spacing, TWO));
    let drop = if layer == 0 {
        0
    } else if layer == 1 {
        fx_mul(cube_size, 1_010_000)
    } else {
        fx_mul(cube_size, 2_020_000)
    };
    Vec3 {
        x: fx_sub(fx_add(center.x, fx_mul(to_whole(x), spacing)), offset),
        y: fx_sub(center.y, drop),
        z: fx_sub(fx_add(center.z, fx_mul(to_whole(z), spacing)), offset),
    }
}

impl SimpleCubeGrid {
    /// The best hit once the center cube was tested.
    pub open spec fn after_center(self, o: Vec3, d: Vec3) -> Best {
        closer(None, self.center_cube.spec_ray_intersect(o, d), 0, KIND_CENTER)
    }

    /// The best hit once the center cube and the cubes were tested.
    pub open spec fn after_cubes(self, o: Vec3, d: Vec3) -> Best {
        scan_cubes(self.cubes@, self.cubes@.len() as int, o, d, self.after_center(o, d))
    }

    /// The best hit once the water was tested as well.
    pub open spec fn after_water(self, o: Vec3, d: Vec3) -> Best {
        scan_planes(
            self.water_planes@,
            self.water_planes@.len() as int,
            o,
            d,
            self.after_cubes(o, d),
            KIND_WATER,
        )
    }

    /// The nearest hit of a ray in the scene: the center cube is tested
    /// first, then the cubes, the water and the lava, each in order, and a
    /// later primitive replaces an earlier one only where it is strictly nearer.
    pub open spec fn spec_ray_intersect(self, o: Vec3, d: Vec3) -> Best {
        scan_planes(
            self.lava_planes@,
            self.lava_planes@.len() as int,
            o,
            d,
            self.after_water(o, d),
            KIND_LAVA,
        )
    }

    /// Whether a solid of the scene, the center cube or one of the cubes,
    /// blocks the ray before `max_distance`. Water and lava cast no shadow.
    pub open spec fn spec_ray_intersect_shadow(self, o: Vec3, d: Vec3, max_distance: i64) -> bool {
        blocks(self.center_cube.spec_ray_intersect(o, d), max_distance) || cubes_block(
            self.cubes@,
            self.cubes@.len() as int,
            o,
            d,
            max_distance,
        )
    }

    /// The grid around `center`, of cubes of edge `cube_size`: a layer of
    /// grass with a hole in its middle, a layer of dirt and a layer of
    /// stone; the center cube over the hole; three planes of water on the
    /// side of negative `x`, and three of lava on the other.
    pub fn new(center: Vec3, cube_size: i64) -> (scene: SimpleCubeGrid)
        ensures
            scene.cubes@ == spec_grid_cubes(center, cube_size, PLACES as int),
            scene.center_cube == spec_center_cube(center, cube_size),
            scene.water_planes@ == spec_pool(center, cube_size, 3, NEG_ONE, Surface::WaterSurface),
            scene.lava_planes@ == spec_pool(center, cube_size, 3, ONE, Surface::LavaSurface),
    {
        let mut cubes: Vec<Cube> = Vec::new();
        let mut c: usize = 0;
        while c < PLACES
            invariant
                c <= PLACES,
                cubes@ == spec_grid_cubes(center, cube_size, c as int),
            decreases PLACES - c,
        {
            let x: usize = c % 5;
            let z: usize = (c % 25) / 5;
            let layer: usize = c / 25;
            if !(layer == 0 && (x == 2 || x == 1) && (z == 2 || z == 1)) {
                let pos = place_center(&center, cube_size, c);
                let surface = if layer == 0 {
                    Surface::GrassTop
                } else if layer == 1 {
                    Surface::DirtLayer
                } else {
                    Surface::StoneLayer
                };
                cubes.push(Cube::new(pos, cube_size, surface.material()));
            }
            c = c + 1;
        }
        let center_cube = Cube::new(
            Vec3 { x: center.x, y: fx_add(center.y, fx_mul(cube_size, 700_000)), z: center.z },
            fx_mul(cube_size, 1_400_000),
            Surface::CenterBlock.material(),
        );
        let water_planes = pool(&center, cube_size, NEG_ONE, Surface::WaterSurface);
        let lava_planes = pool(&center, cube_size, ONE, Surface::LavaSurface);
        SimpleCubeGrid { cubes, center_cube, water_planes, lava_planes }
    }

    /// The hit names a primitive of the scene: its tag is that of one of
    /// the four collections, and its index lies within that collection.
    pub open spec fn names(self, hit: (usize, i64, u8)) -> bool {
        ||| hit.2 == KIND_CENTER && hit.0 == 0
        ||| hit.2 == KIND_CUBE && hit.0 < self.cubes@.len()
        ||| hit.2 == KIND_WATER && hit.0 < self.water_planes@.len()
        ||| hit.2 == KIND_LAVA && hit.0 < self.lava_planes@.len()
    }

    /// The nearest hit of a ray in the scene: the index of the primitive in
    /// its collection, the distance, and the tag of the collection.
    pub fn ray_intersect(&self, ray_origin: &Vec3, ray_direction: &Vec3) -> (r: Option<
        (usize, i64, u8),
    >)
        ensures
            r == self.spec_ray_intersect(*ray_origin, *ray_direction),
            r.is_some() ==> self.names(r.unwrap()) && r.unwrap().1 > BIAS,
    {
        proof {
            self.lemma_hit_is_real(*ray_origin, *ray_direction);
        }
        let best = keep_closer(
            None,
            self.center_cube.ray_intersect(ray_origin, ray_direction),
            0,
            KIND_CENTER,
        );
        let best = nearest_cube(&self.cubes, ray_origin, ray_direction, best);
        let best = nearest_plane(&self.water_planes, ray_origin, ray_direction, best, KIND_WATER);
        nearest_plane(&self.lava_planes, ray_origin, ray_direction, best, KIND_LAVA)
    }

    /// Whether a solid of the scene blocks the ray before `max_distance`.
    pub fn ray_intersect_shadow(
        &self,
        ray_origin: &Vec3,
        ray_direction: &Vec3,
        max_distance: i64,
    ) -> (shadowed: bool)
        ensures
            shadowed == self.spec_ray_intersect_shadow(*ray_origin, *ray_direction, max_distance),
    {
        if is_blocking(self.center_cube.ray_intersect(ray_origin, ray_direction), max_distance) {
            return true;
        }
        any_cube_blocks(&self.cubes, ray_origin, ray_direction, max_distance)
    }

    /// The collections of a scene are vectors, whose lengths are machine words.
    proof fn lemma_lengths(self)
        ensures
            self.cubes@.len() <= usize::MAX,
            self.water_planes@.len() <= usize::MAX,
            self.lava_planes@.len() <= usize::MAX,
    {
        assert(self.cubes@.len() == self.cubes.len());
        assert(self.water_planes@.len() == self.water_planes.len());
        assert(self.lava_planes@.len() == self.lava_planes.len());
    }

    /// The hit that `ray_intersect` returns is a hit on the primitive it
    /// names, at the distance at which the ray meets that primitive.
    pub proof fn lemma_hit_is_real(self, o: Vec3, d: Vec3)
        ensures
            match self.spec_ray_intersect(o, d) {
                None => true,
                Some((index, distance, kind)) => {
                    &&& distance > BIAS
                    &&& kind == KIND_CENTER ==> index == 0 && self.center_cube.spec_ray_intersect(
                        o,
                        d,
                    ) == Some(distance)
                    &&& kind == KIND_CUBE ==> index < self.cubes@.len()
                        && self.cubes@[index as int].spec_ray_intersect(o, d) == Some(distance)
                    &&& kind == KIND_WATER ==> index < self.water_planes@.len()
                        && self.water_planes@[index as int].spec_ray_intersect(o, d) == Some(
                        distance,
                    )
                    &&& kind == KIND_LAVA ==> index < self.lava_planes@.len()
                        && self.lava_planes@[index as int].spec_ray_intersect(o, d) == Some(
                        distance,
                    )
                    &&& kind == KIND_CENTER || kind == KIND_CUBE || kind == KIND_WATER || kind
                        == KIND_LAVA
                },
            },
    {
        self.lemma_lengths();
        lemma_scan_cubes_source(
            self.cubes@,
            self.cubes@.len() as int,
            o,
            d,
            self.after_center(o, d),
        );
        lemma_scan_planes_source(
            self.water_planes@,
            self.water_planes@.len() as int,
            o,
            d,
            self.after_cubes(o, d),
            KIND_WATER,
        );
        lemma_scan_planes_source(
            self.lava_planes@,
            self.lava_planes@.len() as int,
            o,
            d,
            self.after_water(o, d),
            KIND_LAVA,
        );
    }

    /// No primitive of the scene is met nearer than the hit that
    /// `ray_intersect` returns: every distance that counts, of the center
    /// cube, of a cube or of a plane, is at least the distance returned, and
    /// where one counts a hit is returned.
    pub proof fn lemma_hit_is_nearest(self, o: Vec3, d: Vec3, t: Option<i64>)
        requires
            improves(None, t),
            t == self.center_cube.spec_ray_intersect(o, d) || (exists|j: int|
                0 <= j < self.cubes@.len() && t == #[trigger] self.cubes@[j].spec_ray_intersect(
                    o,
                    d,
                )) || (exists|j: int|
                0 <= j < self.water_planes@.len()
                    && t == #[trigger] self.water_planes@[j].spec_ray_intersect(o, d)) || (exists|
                j: int,
            |
                0 <= j < self.lava_planes@.len()
                    && t == #[trigger] self.lava_planes@[j].spec_ray_intersect(o, d)),
        ensures
            self.spec_ray_intersect(o, d).is_some(),
            self.spec_ray_intersect(o, d).unwrap().1 <= t.unwrap(),
    {
        let b0 = self.after_center(o, d);
        let b1 = self.after_cubes(o, d);
        let b2 = self.after_water(o, d);
        self.lemma_lengths();
        lemma_scan_cubes_source(self.cubes@, self.cubes@.len() as int, o, d, b0);
        lemma_scan_planes_source(
            self.water_planes@,
            self.water_planes@.len() as int,
            o,
            d,
            b1,
            KIND_WATER,
        );
        lemma_scan_planes_source(
            self.lava_planes@,
            self.lava_planes@.len() as int,
            o,
            d,
            b2,
            KIND_LAVA,
        );
        if t == self.center_cube.spec_ray_intersect(o, d) {
        } else if exists|j: int|
            0 <= j < self.cubes@.len() && t == #[trigger] self.cubes@[j].spec_ray_intersect(o, d) {
            let j = choose|j: int|
                0 <= j < self.cubes@.len() && t == #[trigger] self.cubes@[j].spec_ray_intersect(
                    o,
                    d,
                );
            lemma_scan_cubes_nearest(self.cubes@, self.cubes@.len() as int, o, d, b0, j);
        } else if exists|j: int|
            0 <= j < self.water_planes@.len()
                && t == #[trigger] self.water_planes@[j].spec_ray_intersect(o, d) {
            let j = choose|j: int|
                0 <= j < self.water_planes@.len()
                    && t == #[trigger] self.water_planes@[j].spec_ray_intersect(o, d);
            lemma_scan_planes_nearest(
                self.water_planes@,
                self.water_planes@.len() as int,
                o,
                d,
                b1,
                KIND_WATER,
                j,
            );
        } else {
            let j = choose|j: int|
                0 <= j < self.lava_planes@.len()
                    && t == #[trigger] self.lava_planes@[j].spec_ray_intersect(o, d);
            lemma_scan_planes_nearest(
                self.lava_planes@,
                self.lava_planes@.len() as int,
                o,
                d,
                b2,
                KIND_LAVA,
                j,
            );
        }
    }

    /// A ray that is in shadow within some distance is in shadow within any
    /// greater distance.
    pub proof fn lemma_shadow_monotone(self, o: Vec3, d: Vec3, near: i64, far: i64)
        requires
            near <= far,
            self.spec_ray_intersect_shadow(o, d, near),
        ensures
            self.spec_ray_intersect_shadow(o, d, far),
    {
        if cubes_block(self.cubes@, self.cubes@.len() as int, o, d, near) {
            lemma_cubes_block_monotone(self.cubes@, self.cubes@.len() as int, o, d, near, far);
        }
    }
}

} // verus!
