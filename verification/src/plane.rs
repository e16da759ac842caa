//! Unbounded planes with a material.

use vstd::prelude::*;
use crate::fixed::{fx_abs, fx_div, sat_abs, sat_div, BIAS, EPSILON};
use crate::material::Material;
use crate::vector::Vec3;

verus! {

/// A plane through `point`, facing along the unit vector `normal`.
#[derive(Clone, Copy, Debug, PartialEq, Eq, Structural)]
pub struct Plane {
    pub point: Vec3,
    pub normal: Vec3,
    pub material: Material,
}

impl Plane {
    /// The distance at which a ray meets the plane: nothing for a ray that
    /// runs along the plane, and nothing within `BIAS` of the origin or behind it.
    pub open spec fn spec_ray_intersect(self, origin: Vec3, direction: Vec3) -> Option<i64> {
        let denom = self.normal.spec_dot(direction);
        let t = sat_div(self.point.spec_minus(origin).spec_dot(self.normal), denom);
        if sat_abs(denom) < EPSILON {
            None
        } else if t > BIAS {
            Some(t)
        } else {
            None
        }
    }

    /// The plane through `point` that faces along `normal`, which is brought
    /// to unit length.
    pub fn new(point: Vec3, normal: Vec3, material: Material) -> (p: Plane)
        requires
            normal.spec_length() != 0,
        ensures
            p == (Plane { point, normal: normal.spec_normalize(), material }),
    {
        Plane { point, normal: normal.normalize(), material }
    }

    pub fn ray_intersect(&self, ray_origin: &Vec3, ray_direction: &Vec3) -> (t: Option<i64>)
        ensures
            t == self.spec_ray_intersect(*ray_origin, *ray_direction),
            t.is_some() ==> t.unwrap() > BIAS,
    {
        let denom = self.normal.dot(ray_direction);
        if fx_abs(denom) < EPSILON {
            return None;
        }
        let t = fx_div(self.point.minus(ray_origin).dot(&self.normal), denom);
        if t > BIAS {
            Some(t)
        } else {
            None
        }
    }

    /// The normal of the plane, the same at every point.
    pub fn get_normal(&self, _point: &Vec3) -> (n: Vec3)
        ensures
            n == self.normal,
    {
        self.normal
    }
}

} // verus!
