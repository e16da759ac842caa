//! Three-component vectors of fixed-point scalars.

use vstd::prelude::*;
use crate::fixed::{
    fx_add, fx_div, fx_mul, fx_neg, fx_sqrt, fx_sub, sat_add, sat_div, sat_mul, sat_neg, sat_sqrt,
    sat_sub,
};

verus! {

/// A point or a direction in space.
#[derive(Clone, Copy, Debug, PartialEq, Eq, Structural)]
pub struct Vec3 {
    pub x: i64,
    pub y: i64,
    pub z: i64,
}

impl Vec3 {
    /// The component on axis 0, 1 or 2; any other axis reads as `z`.
    pub open spec fn axis(self, i: int) -> i64 {
        if i == 0 {
            self.x
        } else if i == 1 {
            self.y
        } else {
            self.z
        }
    }

    pub open spec fn spec_plus(self, o: Vec3) -> Vec3 {
        Vec3 { x: sat_add(self.x, o.x), y: sat_add(self.y, o.y), z: sat_add(self.z, o.z) }
    }

    pub open spec fn spec_minus(self, o: Vec3) -> Vec3 {
        Vec3 { x: sat_sub(self.x, o.x), y: sat_sub(self.y, o.y), z: sat_sub(self.z, o.z) }
    }

    pub open spec fn spec_scale(self, k: i64) -> Vec3 {
        Vec3 { x: sat_mul(self.x, k), y: sat_mul(self.y, k), z: sat_mul(self.z, k) }
    }

    pub open spec fn spec_negated(self) -> Vec3 {
        Vec3 { x: sat_neg(self.x), y: sat_neg(self.y), z: sat_neg(self.z) }
    }

    pub open spec fn spec_dot(self, o: Vec3) -> i64 {
        sat_add(sat_add(sat_mul(self.x, o.x), sat_mul(self.y, o.y)), sat_mul(self.z, o.z))
    }

    pub open spec fn spec_cross(self, o: Vec3) -> Vec3 {
        Vec3 {
            x: sat_sub(sat_mul(self.y, o.z), sat_mul(self.z, o.y)),
            y: sat_sub(sat_mul(self.z, o.x), sat_mul(self.x, o.z)),
            z: sat_sub(sat_mul(self.x, o.y), sat_mul(self.y, o.x)),
        }
    }

    pub open spec fn spec_length(self) -> i64 {
        sat_sqrt(self.spec_dot(self))
    }

    /// The vector divided by its length. Meaningful where the length is not zero.
    pub open spec fn spec_normalize(self) -> Vec3 {
        let len = self.spec_length();
        Vec3 { x: sat_div(self.x, len), y: sat_div(self.y, len), z: sat_div(self.z, len) }
    }

    /// The vector scaled to unit length; itself where it has no length.
    pub open spec fn spec_direction(self) -> Vec3 {
        if self.spec_length() == 0 {
            self
        } else {
            self.spec_normalize()
        }
    }

    pub open spec fn spec_distance(self, o: Vec3) -> i64 {
        self.spec_minus(o).spec_length()
    }

    /// The point reached from `self` after travelling `t` along `dir`.
    pub open spec fn spec_advance(self, dir: Vec3, t: i64) -> Vec3 {
        self.spec_plus(dir.spec_scale(t))
    }

    pub fn new(x: i64, y: i64, z: i64) -> (v: Vec3)
        ensures
            v == (Vec3 { x, y, z }),
    {
        Vec3 { x, y, z }
    }

    pub fn zero() -> (v: Vec3)
        ensures
            v == (Vec3 { x: 0, y: 0, z: 0 }),
    {
        Vec3 { x: 0, y: 0, z: 0 }
    }

    /// Reads the component on axis `i`.
    pub fn component(&self, i: usize) -> (c: i64)
        ensures
            c == self.axis(i as int),
    {
        if i == 0 {
            self.x
        } else if i == 1 {
            self.y
        } else {
            self.z
        }
    }

    pub fn plus(&self, o: &Vec3) -> (v: Vec3)
        ensures
            v == self.spec_plus(*o),
    {
        Vec3 { x: fx_add(self.x, o.x), y: fx_add(self.y, o.y), z: fx_add(self.z, o.z) }
    }

    pub fn minus(&self, o: &Vec3) -> (v: Vec3)
        ensures
            v == self.spec_minus(*o),
    {
        Vec3 { x: fx_sub(self.x, o.x), y: fx_sub(self.y, o.y), z: fx_sub(self.z, o.z) }
    }

    pub fn scale(&self, k: i64) -> (v: Vec3)
        ensures
            v == self.spec_scale(k),
    {
        Vec3 { x: fx_mul(self.x, k), y: fx_mul(self.y, k), z: fx_mul(self.z, k) }
    }

    pub fn negated(&self) -> (v: Vec3)
        ensures
            v == self.spec_negated(),
    {
        Vec3 { x: fx_neg(self.x), y: fx_neg(self.y), z: fx_neg(self.z) }
    }

    pub fn dot(&self, o: &Vec3) -> (d: i64)
        ensures
            d == self.spec_dot(*o),
    {
        fx_add(fx_add(fx_mul(self.x, o.x), fx_mul(self.y, o.y)), fx_mul(self.z, o.z))
    }

    pub fn cross(&self, o: &Vec3) -> (v: Vec3)
        ensures
            v == self.spec_cross(*o),
    {
        Vec3 {
            x: fx_sub(fx_mul(self.y, o.z), fx_mul(self.z, o.y)),
            y: fx_sub(fx_mul(self.z, o.x), fx_mul(self.x, o.z)),
            z: fx_sub(fx_mul(self.x, o.y), fx_mul(self.y, o.x)),
        }
    }

    pub fn length(&self) -> (l: i64)
        ensures
            l == self.spec_length(),
            l >= 0,
    {
        fx_sqrt(self.dot(self))
    }

    /// Scales the vector to unit length.
    pub fn normalize(&self) -> (v: Vec3)
        requires
            self.spec_length() != 0,
        ensures
            v == self.spec_normalize(),
    {
        let len = self.length();
        Vec3 { x: fx_div(self.x, len), y: fx_div(self.y, len), z: fx_div(self.z, len) }
    }

    /// Scales the vector to unit length where it has a length, and leaves it
    /// as it is where it has none.
    pub fn direction(&self) -> (v: Vec3)
        ensures
            v == self.spec_direction(),
    {
        let len = self.length();
        if len == 0 {
            *self
        } else {
            Vec3 { x: fx_div(self.x, len), y: fx_div(self.y, len), z: fx_div(self.z, len) }
        }
    }

    pub fn distance(&self, o: &Vec3) -> (d: i64)
        ensures
            d == self.spec_distance(*o),
            d >= 0,
    {
        self.minus(o).length()
    }

    /// The point reached from `self` after travelling `t` along `dir`.
    pub fn advance(&self, dir: &Vec3, t: i64) -> (p: Vec3)
        ensures
            p == self.spec_advance(*dir, t),
    {
        self.plus(&dir.scale(t))
    }
}

} // verus!
