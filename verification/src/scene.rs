//! The scene: its solids, its floor, its lights, its textures and its sky,
//! with the search for the nearest hit of a ray.

use vstd::prelude::*;
use crate::color::Color;
use crate::diorama::OptimizedDiorama;
use crate::fixed::BIAS;
use crate::grid::SimpleCubeGrid;
use crate::light::Light;
use crate::material::{Material, MaterialKind};
use crate::plane::Plane;
use crate::skybox::Skybox;
use crate::texture::Texture;
use crate::traverse::{
    blocks, closer, is_blocking, keep_closer, Best, KIND_CENTER, KIND_CUBE, KIND_FLOOR, KIND_WATER,
};
use crate::vector::Vec3;

verus! {

/// The solids of a scene, in one of the two arrangements.
pub enum Solids {
    Grid(SimpleCubeGrid),
    Diorama(OptimizedDiorama),
}

/// The textures of the surfaces, one for each kind that has one.
pub struct TextureSet {
    pub grass: Texture,
    pub dirt: Texture,
    pub stone: Texture,
    pub water: Texture,
    pub lava: Texture,
    pub obsidian: Texture,
}

/// What is rendered.
pub struct Scene {
    pub solids: Solids,
    pub floor: Plane,
    pub lights: Vec<Light>,
    pub textures: TextureSet,
    /// The cube map of the background; without one the sky is a gradient.
    pub skybox: Option<Skybox>,
}

/// Where a ray meets the scene.
#[derive(Clone, Copy, Debug)]
pub struct Hit {
    /// The distance along the ray.
    pub distance: i64,
    /// The point of the surface: the origin advanced by the distance.
    pub point: Vec3,
    /// The normal of the surface at the point.
    pub normal: Vec3,
    pub material: Material,
    /// The tag of the collection that the primitive belongs to.
    pub kind: u8,
    /// The index of the primitive in its collection; 0 for the floor.
    pub index: usize,
    /// The surface coordinates of the point, where the primitive is a cube.
    pub uv: Option<(i64, i64)>,
}

impl Solids {
    pub open spec fn wf(self) -> bool {
        match self {
            Solids::Grid(_) => true,
            Solids::Diorama(diorama) => diorama.wf(),
        }
    }

    /// The nearest hit of a ray among the solids.
    pub open spec fn spec_nearest(self, o: Vec3, d: Vec3) -> Best {
        match self {
            Solids::Grid(grid) => grid.spec_ray_intersect(o, d),
            Solids::Diorama(diorama) => diorama.spec_ray_intersect_fast(o, d),
        }
    }

    /// Whether a solid blocks the ray before `max_distance`.
    pub open spec fn spec_shadowed(self, o: Vec3, d: Vec3, max_distance: i64) -> bool {
        match self {
            Solids::Grid(grid) => grid.spec_ray_intersect_shadow(o, d, max_distance),
            Solids::Diorama(diorama) => diorama.spec_ray_intersect_shadow_fast(o, d, max_distance),
        }
    }

    /// The hit names a primitive of the solids.
    pub open spec fn names(self, hit: (usize, i64, u8)) -> bool {
        match self {
            Solids::Grid(grid) => grid.names(hit),
            Solids::Diorama(diorama) => hit.2 == KIND_CUBE && hit.0 < diorama.cubes@.len(),
        }
    }

    /// The normal, the material and the surface coordinates at point `p`
    /// of the primitive that a hit names.
    pub open spec fn surface(self, index: usize, kind: u8, p: Vec3) -> (
        Vec3,
        Material,
        Option<(i64, i64)>,
    ) {
        match self {
            Solids::Grid(grid) => {
                if kind == KIND_CENTER {
                    (
                        grid.center_cube.spec_get_normal(p),
                        grid.center_cube.material,
                        Some(grid.center_cube.spec_get_uv_coordinates(p)),
                    )
                } else if kind == KIND_CUBE {
                    (
                        grid.cubes@[index as int].spec_get_normal(p),
                        grid.cubes@[index as int].material,
                        Some(grid.cubes@[index as int].spec_get_uv_coordinates(p)),
                    )
                } else if kind == KIND_WATER {
                    (
                        grid.water_planes@[index as int].normal,
                        grid.water_planes@[index as int].material,
                        None,
                    )
                } else {
                    (
                        grid.lava_planes@[index as int].normal,
                        grid.lava_planes@[index as int].material,
                        None,
                    )
                }
            },
            Solids::Diorama(diorama) => (
                diorama.cubes@[index as int].spec_get_normal(p),
                diorama.cubes@[index as int].material,
                Some(diorama.cubes@[index as int].spec_get_uv_coordinates(p)),
            ),
        }
    }

    pub fn nearest(&self, o: &Vec3, d: &Vec3) -> (r: Best)
        requires
            self.wf(),
        ensures
            r == self.spec_nearest(*o, *d),
            r.is_some() ==> self.names(r.unwrap()) && r.unwrap().1 > BIAS,
    {
        match self {
            Solids::Grid(grid) => grid.ray_intersect(o, d),
            Solids::Diorama(diorama) => diorama.ray_intersect_fast(o, d),
        }
    }

    pub fn shadowed(&self, o: &Vec3, d: &Vec3, max_distance: i64) -> (b: bool)
        requires
            self.wf(),
        ensures
            b == self.spec_shadowed(*o, *d, max_distance),
    {
        match self {
            Solids::Grid(grid) => grid.ray_intersect_shadow(o, d, max_distance),
            Solids::Diorama(diorama) => diorama.ray_intersect_shadow_fast(o, d, max_distance),
        }
    }

    /// The normal, the material and the surface coordinates at a point of
    /// the primitive that a hit names.
    pub fn surface_at(&self, index: usize, kind: u8, p: &Vec3) -> (s: (
        Vec3,
        Material,
        Option<(i64, i64)>,
    ))
        requires
            self.names((index, 0, kind)),
        ensures
            s == self.surface(index, kind, *p),
    {
        match self {
            Solids::Grid(grid) => {
                if kind == KIND_CENTER {
                    (
                        grid.center_cube.get_normal(p),
                        grid.center_cube.material,
                        Some(grid.center_cube.get_uv_coordinates(p)),
                    )
                } else if kind == KIND_CUBE {
                    let cube = &grid.cubes[index];
                    (cube.get_normal(p), cube.material, Some(cube.get_uv_coordinates(p)))
                } else if kind == KIND_WATER {
                    let plane = &grid.water_planes[index];
                    (plane.get_normal(p), plane.material, None)
                } else {
                    let plane = &grid.lava_planes[index];
                    (plane.get_normal(p), plane.material, None)
                }
            },
            Solids::Diorama(diorama) => {
                let cube = &diorama.cubes[index];
                (cube.get_normal(p), cube.material, Some(cube.get_uv_coordinates(p)))
            },
        }
    }
}

impl TextureSet {
    /// Every texture has texels.
    pub open spec fn wf(self) -> bool {
        &&& self.grass.width > 0 && self.grass.height > 0
        &&& self.dirt.width > 0 && self.dirt.height > 0
        &&& self.stone.width > 0 && self.stone.height > 0
        &&& self.water.width > 0 && self.water.height > 0
        &&& self.lava.width > 0 && self.lava.height > 0
        &&& self.obsidian.width > 0 && self.obsidian.height > 0
    }

    /// The color of the texture of a kind at `(u, v)`; nothing for a kind
    /// without texture.
    pub open spec fn spec_sample(self, kind: MaterialKind, u: i64, v: i64) -> Option<Color> {
        match kind {
            MaterialKind::Grass => Some(self.grass.spec_sample(u, v)),
            MaterialKind::Dirt => Some(self.dirt.spec_sample(u, v)),
            MaterialKind::Stone => Some(self.stone.spec_sample(u, v)),
            MaterialKind::Water => Some(self.water.spec_sample(u, v)),
            MaterialKind::Lava => Some(self.lava.spec_sample(u, v)),
            MaterialKind::Obsidian => Some(self.obsidian.spec_sample(u, v)),
            _ => None,
        }
    }

    pub fn sample(&self, kind: MaterialKind, u: i64, v: i64) -> (c: Option<Color>)
        requires
            self.wf(),
        ensures
            c == self.spec_sample(kind, u, v),
    {
        match kind {
            MaterialKind::Grass => Some(self.grass.sample(u, v)),
            MaterialKind::Dirt => Some(self.dirt.sample(u, v)),
            MaterialKind::Stone => Some(self.stone.sample(u, v)),
            MaterialKind::Water => Some(self.water.sample(u, v)),
            MaterialKind::Lava => Some(self.lava.sample(u, v)),
            MaterialKind::Obsidian => Some(self.obsidian.sample(u, v)),
            _ => None,
        }
    }
}

impl Scene {
    /// The scene is in order: its solids are, and every texture, those of
    /// the sky included, has texels.
    pub open spec fn wf(self) -> bool {
        &&& self.solids.wf()
        &&& self.textures.wf()
        &&& self.skybox.is_some() ==> self.skybox.unwrap().wf()
    }

    /// The nearest hit of a ray among the solids and the floor, which is
    /// tested last.
    pub open spec fn spec_nearest(self, o: Vec3, d: Vec3) -> Best {
        closer(self.solids.spec_nearest(o, d), self.floor.spec_ray_intersect(o, d), 0, KIND_FLOOR)
    }

    /// The hit for a primitive met at distance `t`.
    pub open spec fn hit_of(self, index: usize, t: i64, kind: u8, o: Vec3, d: Vec3) -> Hit {
        let point = o.spec_advance(d, t);
        if kind == KIND_FLOOR {
            Hit {
                distance: t,
                point,
                normal: self.floor.normal,
                material: self.floor.material,
                kind,
                index,
                uv: None,
            }
        } else {
            let s = self.solids.surface(index, kind, point);
            Hit { distance: t, point, normal: s.0, material: s.1, kind, index, uv: s.2 }
        }
    }

    /// Where a ray first meets the scene, if it does.
    pub open spec fn spec_find_hit(self, o: Vec3, d: Vec3) -> Option<Hit> {
        match self.spec_nearest(o, d) {
            None => None,
            Some((index, t, kind)) => Some(self.hit_of(index, t, kind, o, d)),
        }
    }

    /// Whether anything stands between a point of a surface and a light:
    /// a solid, or the floor, before `max_distance` along the ray.
    pub open spec fn spec_occluded(self, o: Vec3, d: Vec3, max_distance: i64) -> bool {
        self.solids.spec_shadowed(o, d, max_distance) || blocks(
            self.floor.spec_ray_intersect(o, d),
            max_distance,
        )
    }

    /// What stands between a point and a light within some distance stands
    /// between them within any greater distance.
    pub proof fn lemma_occluded_monotone(self, o: Vec3, d: Vec3, near: i64, far: i64)
        requires
            near <= far,
            self.spec_occluded(o, d, near),
        ensures
            self.spec_occluded(o, d, far),
    {
        if self.solids.spec_shadowed(o, d, near) {
            match self.solids {
                Solids::Grid(grid) => grid.lemma_shadow_monotone(o, d, near, far),
                Solids::Diorama(diorama) => diorama.lemma_shadow_monotone(o, d, near, far),
            }
        }
    }

    /// Where a ray first meets the scene, if it does.
    pub fn find_hit(&self, o: &Vec3, d: &Vec3) -> (h: Option<Hit>)
        requires
            self.wf(),
        ensures
            h == self.spec_find_hit(*o, *d),
            h.is_some() ==> h.unwrap().distance > BIAS,
    {
        let among_solids = self.solids.nearest(o, d);
        let best = keep_closer(among_solids, self.floor.ray_intersect(o, d), 0, KIND_FLOOR);
        match best {
            None => None,
            Some((index, t, kind)) => {
                let point = o.advance(d, t);
                if kind == KIND_FLOOR {
                    Some(
                        Hit {
                            distance: t,
                            point,
                            normal: self.floor.get_normal(&point),
                            material: self.floor.material,
                            kind,
                            index,
                            uv: None,
                        },
                    )
                } else {
                    let s = self.solids.surface_at(index, kind, &point);
                    Some(
                        Hit {
                            distance: t,
                            point,
                            normal: s.0,
                            material: s.1,
                            kind,
                            index,
                            uv: s.2,
                        },
                    )
                }
            },
        }
    }

    /// Whether anything stands between a point of a surface and a light.
    /// Stops at the first thing that does.
    pub fn occluded(&self, o: &Vec3, d: &Vec3, max_distance: i64) -> (b: bool)
        requires
            self.wf(),
        ensures
            b == self.spec_occluded(*o, *d, max_distance),
    {
        if self.solids.shadowed(o, d, max_distance) {
            return true;
        }
        is_blocking(self.floor.ray_intersect(o, d), max_distance)
    }
}

} // verus!
