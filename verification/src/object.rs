//! The closed set of solid primitives.

use vstd::prelude::*;
use crate::cube::Cube;
use crate::material::Material;
use crate::sphere::Sphere;
use crate::vector::Vec3;

verus! {

#[derive(Clone, Copy, Debug, PartialEq, Eq, Structural)]
pub enum Object {
    Sphere(Sphere),
    Cube(Cube),
}

impl Object {
    pub open spec fn spec_ray_intersect(self, origin: Vec3, direction: Vec3) -> Option<i64> {
        match self {
            Object::Sphere(sphere) => sphere.spec_ray_intersect(origin, direction),
            Object::Cube(cube) => cube.spec_ray_intersect(origin, direction),
        }
    }

    pub open spec fn spec_get_material(self) -> Material {
        match self {
            Object::Sphere(sphere) => sphere.material,
            Object::Cube(cube) => cube.material,
        }
    }

    pub open spec fn spec_get_center(self) -> Vec3 {
        match self {
            Object::Sphere(sphere) => sphere.center,
            Object::Cube(cube) => cube.bounds().spec_center(),
        }
    }

    pub open spec fn spec_get_normal(self, p: Vec3) -> Vec3 {
        match self {
            Object::Sphere(sphere) => sphere.spec_get_normal(p),
            Object::Cube(cube) => cube.spec_get_normal(p),
        }
    }

    /// The outward normal at a point of the surface.
    pub fn get_normal(&self, point: &Vec3) -> (n: Vec3)
        ensures
            n == self.spec_get_normal(*point),
    {
        match self {
            Object::Sphere(sphere) => sphere.get_normal(point),
            Object::Cube(cube) => cube.get_normal(point),
        }
    }

    /// The nearest distance ahead of the origin at which the ray meets the primitive.
    pub fn ray_intersect(&self, ray_origin: &Vec3, ray_direction: &Vec3) -> (t: Option<i64>)
        ensures
            t == self.spec_ray_intersect(*ray_origin, *ray_direction),
            t.is_some() ==> t.unwrap() > 0,
    {
        match self {
            Object::Sphere(sphere) => sphere.ray_intersect(ray_origin, ray_direction),
            Object::Cube(cube) => cube.ray_intersect(ray_origin, ray_direction),
        }
    }

    pub fn get_material(&self) -> (m: &Material)
        ensures
            *m == self.spec_get_material(),
    {
        match self {
            Object::Sphere(sphere) => &sphere.material,
            Object::Cube(cube) => &cube.material,
        }
    }

    /// The center of a sphere; the point halfway between the corners of a cube.
    pub fn get_center(&self) -> (c: Vec3)
        ensures
            c == self.spec_get_center(),
    {
        match self {
            Object::Sphere(sphere) => sphere.center,
            Object::Cube(cube) => cube.bounding_box().center(),
        }
    }
}

} // verus!
