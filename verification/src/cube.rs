//! Axis-aligned cubes with a material.

use vstd::prelude::*;
use crate::aabb::Aabb;
use crate::fixed::{
    clamped, fx_abs, fx_add, fx_clamp, fx_div, fx_sub, lemma_sat_div_sign, sat_abs, sat_add,
    sat_div, sat_sub, BIAS, NEG_ONE, ONE, TWO,
};
use crate::material::Material;
use crate::vector::Vec3;

verus! {

/// A point this close to the plane of a face counts as lying on the face.
pub const FACE_TOLERANCE: i64 = BIAS;

/// A box with a material. `min` and `max` are its extreme corners.
#[derive(Clone, Copy, Debug, PartialEq, Eq, Structural)]
pub struct Cube {
    pub min: Vec3,
    pub max: Vec3,
    pub material: Material,
}

/// The six faces of a box, named by the direction they look in.
#[derive(Clone, Copy, Debug, PartialEq, Eq, Structural)]
pub enum Face {
    NegX,
    PosX,
    NegY,
    PosY,
    NegZ,
    PosZ,
}

/// `a` lies within the face tolerance of `b`.
pub open spec fn close_to(a: i64, b: i64) -> bool {
    sat_abs(sat_sub(a, b)) < FACE_TOLERANCE
}

/// How far `p` lies between `lo` and `hi`, as a scalar from 0 to 1; 0 for a
/// span without extent.
pub open spec fn fraction(p: i64, lo: i64, hi: i64) -> i64 {
    if sat_sub(hi, lo) == 0 {
        0
    } else {
        clamped(sat_div(sat_sub(p, lo), sat_sub(hi, lo)), 0, ONE)
    }
}

impl Face {
    /// The unit vector that points out of the face.
    pub open spec fn spec_normal(self) -> Vec3 {
        match self {
            Face::NegX => Vec3 { x: NEG_ONE, y: 0, z: 0 },
            Face::PosX => Vec3 { x: ONE, y: 0, z: 0 },
            Face::NegY => Vec3 { x: 0, y: NEG_ONE, z: 0 },
            Face::PosY => Vec3 { x: 0, y: ONE, z: 0 },
            Face::NegZ => Vec3 { x: 0, y: 0, z: NEG_ONE },
            Face::PosZ => Vec3 { x: 0, y: 0, z: ONE },
        }
    }

    pub fn normal(self) -> (n: Vec3)
        ensures
            n == self.spec_normal(),
    {
        match self {
            Face::NegX => Vec3 { x: NEG_ONE, y: 0, z: 0 },
            Face::PosX => Vec3 { x: ONE, y: 0, z: 0 },
            Face::NegY => Vec3 { x: 0, y: NEG_ONE, z: 0 },
            Face::PosY => Vec3 { x: 0, y: ONE, z: 0 },
            Face::NegZ => Vec3 { x: 0, y: 0, z: NEG_ONE },
            Face::PosZ => Vec3 { x: 0, y: 0, z: ONE },
        }
    }
}

impl Cube {
    pub open spec fn bounds(self) -> Aabb {
        Aabb { min: self.min, max: self.max }
    }

    /// The cube of edge `size` around `center`.
    pub open spec fn spec_new(center: Vec3, size: i64, material: Material) -> Cube {
        let half = sat_div(size, TWO);
        Cube {
            min: Vec3 {
                x: sat_sub(center.x, half),
                y: sat_sub(center.y, half),
                z: sat_sub(center.z, half),
            },
            max: Vec3 {
                x: sat_add(center.x, half),
                y: sat_add(center.y, half),
                z: sat_add(center.z, half),
            },
            material,
        }
    }

    /// The distance at which a ray meets the cube: the slab test of its box.
    pub open spec fn spec_ray_intersect(self, origin: Vec3, direction: Vec3) -> Option<i64> {
        self.bounds().spec_nearest(origin, direction)
    }

    /// The face on which a point of the surface lies: the first, in the order
    /// of the variants, whose plane the point is close to; the last one for a
    /// point close to none.
    pub open spec fn spec_face_of(self, p: Vec3) -> Face {
        if close_to(p.x, self.min.x) {
            Face::NegX
        } else if close_to(p.x, self.max.x) {
            Face::PosX
        } else if close_to(p.y, self.min.y) {
            Face::NegY
        } else if close_to(p.y, self.max.y) {
            Face::PosY
        } else if close_to(p.z, self.min.z) {
            Face::NegZ
        } else {
            Face::PosZ
        }
    }

    pub open spec fn spec_get_normal(self, p: Vec3) -> Vec3 {
        self.spec_face_of(p).spec_normal()
    }

    /// The surface coordinates of a point on a face: the two coordinates that
    /// run within the face, each as a fraction of the extent of the cube.
    pub open spec fn spec_get_uv_coordinates(self, p: Vec3) -> (i64, i64) {
        match self.spec_face_of(p) {
            Face::NegX | Face::PosX => (
                fraction(p.z, self.min.z, self.max.z),
                fraction(p.y, self.min.y, self.max.y),
            ),
            Face::NegY | Face::PosY => (
                fraction(p.x, self.min.x, self.max.x),
                fraction(p.z, self.min.z, self.max.z),
            ),
            Face::NegZ | Face::PosZ => (
                fraction(p.x, self.min.x, self.max.x),
                fraction(p.y, self.min.y, self.max.y),
            ),
        }
    }

    pub fn new(center: Vec3, size: i64, material: Material) -> (c: Cube)
        ensures
            c == Cube::spec_new(center, size, material),
            size >= 0 ==> c.bounds().wf() && c.bounds().contains_point(center),
    {
        let half_size = fx_div(size, TWO);
        proof {
            lemma_sat_div_sign(size, TWO);
        }
        Cube {
            min: Vec3 {
                x: fx_sub(center.x, half_size),
                y: fx_sub(center.y, half_size),
                z: fx_sub(center.z, half_size),
            },
            max: Vec3 {
                x: fx_add(center.x, half_size),
                y: fx_add(center.y, half_size),
                z: fx_add(center.z, half_size),
            },
            material,
        }
    }

    /// The bounding box of the cube, which is the cube itself.
    pub fn bounding_box(&self) -> (b: Aabb)
        ensures
            b == self.bounds(),
    {
        Aabb { min: self.min, max: self.max }
    }

    /// The nearest distance ahead of the origin at which the ray meets the
    /// cube, by the slab method.
    pub fn ray_intersect(&self, ray_origin: &Vec3, ray_direction: &Vec3) -> (t: Option<i64>)
        ensures
            t == self.spec_ray_intersect(*ray_origin, *ray_direction),
            t.is_some() ==> t.unwrap() > 0,
    {
        self.bounding_box().nearest(ray_origin, ray_direction)
    }

    /// The face of the cube on which a point of its surface lies.
    pub fn face_of(&self, point: &Vec3) -> (f: Face)
        ensures
            f == self.spec_face_of(*point),
    {
        if near(point.x, self.min.x) {
            Face::NegX
        } else if near(point.x, self.max.x) {
            Face::PosX
        } else if near(point.y, self.min.y) {
            Face::NegY
        } else if near(point.y, self.max.y) {
            Face::PosY
        } else if near(point.z, self.min.z) {
            Face::NegZ
        } else {
            Face::PosZ
        }
    }

    /// The outward normal at a point of the surface.
    pub fn get_normal(&self, point: &Vec3) -> (n: Vec3)
        ensures
            n == self.spec_get_normal(*point),
    {
        self.face_of(point).normal()
    }

    /// The surface coordinates `(u, v)` of a point of the surface, each from 0 to 1.
    pub fn get_uv_coordinates(&self, point: &Vec3) -> (uv: (i64, i64))
        ensures
            uv == self.spec_get_uv_coordinates(*point),
            0 <= uv.0 <= ONE,
            0 <= uv.1 <= ONE,
    {
        match self.face_of(point) {
            Face::NegX | Face::PosX => (
                along(point.z, self.min.z, self.max.z),
                along(point.y, self.min.y, self.max.y),
            ),
            Face::NegY | Face::PosY => (
                along(point.x, self.min.x, self.max.x),
                along(point.z, self.min.z, self.max.z),
            ),
            Face::NegZ | Face::PosZ => (
                along(point.x, self.min.x, self.max.x),
                along(point.y, self.min.y, self.max.y),
            ),
        }
    }
}

fn near(a: i64, b: i64) -> (r: bool)
    ensures
        r == close_to(a, b),
{
    fx_abs(fx_sub(a, b)) < FACE_TOLERANCE
}

fn along(p: i64, lo: i64, hi: i64) -> (r: i64)
    ensures
        r == fraction(p, lo, hi),
        0 <= r <= ONE,
{
    let extent = fx_sub(hi, lo);
    if extent == 0 {
        0
    } else {
        fx_clamp(fx_div(fx_sub(p, lo), extent), 0, ONE)
    }
}

} // verus!
