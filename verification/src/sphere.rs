//! Spheres with a material.

use vstd::prelude::*;
use crate::fixed::{
    fx_add, fx_div, fx_mul, fx_neg, fx_sqrt, fx_sub, lemma_sat_div_sign, lemma_sat_mul_whole,
    lemma_sat_sqrt_brackets, sat_add, sat_div, sat_mul, sat_neg, sat_sqrt, sat_sub, FOUR, ONE,
    TWO,
};
use crate::material::Material;
use crate::vector::Vec3;

verus! {

#[derive(Clone, Copy, Debug, PartialEq, Eq, Structural)]
pub struct Sphere {
    pub center: Vec3,
    pub radius: i64,
    pub material: Material,
}

/// The coefficients `(a, b, c)` of the quadratic `a t^2 + b t + c = 0` whose
/// roots are the distances at which the ray meets the sphere.
pub open spec fn quadratic(s: Sphere, origin: Vec3, direction: Vec3) -> (i64, i64, i64) {
    let oc = origin.spec_minus(s.center);
    (
        direction.spec_dot(direction),
        sat_mul(TWO, oc.spec_dot(direction)),
        sat_sub(oc.spec_dot(oc), sat_mul(s.radius, s.radius)),
    )
}

/// `b^2 - 4ac`.
pub open spec fn discriminant(a: i64, b: i64, c: i64) -> i64 {
    sat_sub(sat_mul(b, b), sat_mul(sat_mul(FOUR, a), c))
}

/// The smaller root of the quadratic. Meaningful for a positive discriminant
/// and `a` other than zero.
pub open spec fn near_root(a: i64, b: i64, c: i64) -> i64 {
    sat_div(sat_sub(sat_neg(b), sat_sqrt(discriminant(a, b, c))), sat_mul(TWO, a))
}

/// The larger root of the quadratic.
pub open spec fn far_root(a: i64, b: i64, c: i64) -> i64 {
    sat_div(sat_add(sat_neg(b), sat_sqrt(discriminant(a, b, c))), sat_mul(TWO, a))
}

/// The nearest positive root of a quadratic: nothing where the discriminant
/// is not positive or the leading coefficient vanishes; else the smaller root
/// where it is positive, else the larger where that is, else nothing.
pub open spec fn nearest_root(a: i64, b: i64, c: i64) -> Option<i64> {
    if discriminant(a, b, c) <= 0 || sat_mul(TWO, a) == 0 {
        None
    } else if near_root(a, b, c) > 0 {
        Some(near_root(a, b, c))
    } else if far_root(a, b, c) > 0 {
        Some(far_root(a, b, c))
    } else {
        None
    }
}

impl Sphere {
    pub open spec fn spec_ray_intersect(self, origin: Vec3, direction: Vec3) -> Option<i64> {
        let (a, b, c) = quadratic(self, origin, direction);
        nearest_root(a, b, c)
    }

    /// The unit vector from the center through a point.
    pub open spec fn spec_get_normal(self, p: Vec3) -> Vec3 {
        p.spec_minus(self.center).spec_direction()
    }

    /// The outward normal at a point of the surface.
    pub fn get_normal(&self, point: &Vec3) -> (n: Vec3)
        ensures
            n == self.spec_get_normal(*point),
    {
        point.minus(&self.center).direction()
    }

    pub fn new(center: Vec3, radius: i64, material: Material) -> (s: Sphere)
        ensures
            s == (Sphere { center, radius, material }),
    {
        Sphere { center, radius, material }
    }

    /// The nearest distance ahead of the origin at which the ray meets the
    /// sphere. The direction is expected to have unit length.
    pub fn ray_intersect(&self, ray_origin: &Vec3, ray_direction: &Vec3) -> (t: Option<i64>)
        ensures
            t == self.spec_ray_intersect(*ray_origin, *ray_direction),
            t.is_some() ==> t.unwrap() > 0,
    {
        let oc = ray_origin.minus(&self.center);
        let a = ray_direction.dot(ray_direction);
        let b = fx_mul(TWO, oc.dot(ray_direction));
        let c = fx_sub(oc.dot(&oc), fx_mul(self.radius, self.radius));
        let disc = fx_sub(fx_mul(b, b), fx_mul(fx_mul(FOUR, a), c));
        let two_a = fx_mul(TWO, a);
        if disc > 0 && two_a != 0 {
            let sqrt_disc = fx_sqrt(disc);
            let t1 = fx_div(fx_sub(fx_neg(b), sqrt_disc), two_a);
            let t2 = fx_div(fx_add(fx_neg(b), sqrt_disc), two_a);
            if t1 > 0 {
                Some(t1)
            } else if t2 > 0 {
                Some(t2)
            } else {
                None
            }
        } else {
            None
        }
    }
}

/// The greatest magnitude of a projection for which the laws of the sphere
/// are stated: a million.
pub const REACH: i64 = 1_000_000_000_000;

/// The greatest squared distance for which the laws of the sphere are
/// stated: a million squared.
pub const REACH_SQUARED: i64 = 1_000_000_000_000_000_000;

/// The least squared length of a direction for which the laws of the
/// sphere are stated: a quarter.
pub const QUARTER: i64 = 250_000;

/// The square of the distance from the origin of a ray to the center, less
/// the square of the radius: positive for an origin outside the sphere.
pub open spec fn clearance(s: Sphere, o: Vec3) -> i64 {
    sat_sub(o.spec_minus(s.center).spec_dot(o.spec_minus(s.center)), sat_mul(s.radius, s.radius))
}

/// How far the offset of the origin from the center reaches along the
/// direction: negative for a ray that heads toward the center.
pub open spec fn heading(s: Sphere, o: Vec3, d: Vec3) -> i64 {
    o.spec_minus(s.center).spec_dot(d)
}

/// The direction is from half a unit to a unit long, and the distances are
/// within reach, so that no operation saturates.
pub open spec fn in_reach(s: Sphere, o: Vec3, d: Vec3) -> bool {
    &&& QUARTER <= d.spec_dot(d) <= ONE
    &&& -REACH <= heading(s, o, d) <= REACH
    &&& 0 <= o.spec_minus(s.center).spec_dot(o.spec_minus(s.center)) <= REACH_SQUARED
    &&& 0 <= sat_mul(s.radius, s.radius) <= REACH_SQUARED
}

/// The ray starts outside the sphere and comes no nearer to the center
/// than the radius: it heads away from the center, or the foot of the
/// perpendicular from the center lies at the radius or beyond. With `h` for
/// the heading, `a` for the squared length of the direction and `c` for the
/// clearance, the squared distance of the foot is `c - h^2 / a` beyond the
/// squared radius.
pub open spec fn passes_outside(s: Sphere, o: Vec3, d: Vec3) -> bool {
    let h = heading(s, o, d);
    clearance(s, o) > 0 && (h >= 0 || h * h <= d.spec_dot(d) * clearance(s, o))
}

/// The ray starts outside the sphere, heads toward the center, and comes
/// nearer to it than the radius, by a quarter of the smallest scalar at least.
pub open spec fn passes_through(s: Sphere, o: Vec3, d: Vec3) -> bool {
    let h = heading(s, o, d);
    clearance(s, o) > 0 && h < 0 && 4 * (h * h) >= 4 * (d.spec_dot(d) * clearance(s, o)) + ONE
}

/// The coefficients and the discriminant of the quadratic, without
/// saturation.
proof fn lemma_discriminant(s: Sphere, o: Vec3, d: Vec3)
    requires
        in_reach(s, o, d),
        clearance(s, o) > 0,
    ensures
        ({
            let q = quadratic(s, o, d);
            let h = heading(s, o, d);
            let a = d.spec_dot(d);
            let c = clearance(s, o);
            &&& q.0 == a
            &&& q.1 == 2 * h
            &&& q.2 == c
            &&& sat_mul(TWO, q.0) == 2 * a
            &&& 0 <= 4 * (h * h)
            &&& 0 <= 4 * (a * c)
            &&& discriminant(q.0, q.1, q.2) == (4 * (h * h)) / (ONE as int) - (4 * (a * c)) / (
            ONE as int)
        }),
{
    let h = heading(s, o, d);
    let a = d.spec_dot(d);
    let c = clearance(s, o);
    lemma_sat_mul_whole(2, h);
    lemma_sat_mul_whole(2, a);
    lemma_sat_mul_whole(4, a);
    assert(0 <= h * h <= 1_000_000_000_000_000_000_000_000) by (nonlinear_arith)
        requires
            -1_000_000_000_000 <= h <= 1_000_000_000_000,
    ;
    assert((2 * h) * (2 * h) == 4 * (h * h)) by (nonlinear_arith);
    assert(0 <= a * c <= 1_000_000_000_000_000_000_000_000) by (nonlinear_arith)
        requires
            0 <= a <= 1_000_000,
            0 <= c <= 1_000_000_000_000_000_000,
    ;
    assert((4 * a) * c == 4 * (a * c)) by (nonlinear_arith);
}

/// A ray from outside the sphere that comes no nearer to the center than
/// the radius does not hit the sphere.
pub proof fn lemma_far_ray_misses(s: Sphere, o: Vec3, d: Vec3)
    requires
        in_reach(s, o, d),
        passes_outside(s, o, d),
    ensures
        s.spec_ray_intersect(o, d).is_none(),
{
    lemma_discriminant(s, o, d);
    let h = heading(s, o, d);
    let a = d.spec_dot(d);
    let c = clearance(s, o);
    let q = quadratic(s, o, d);
    let disc = discriminant(q.0, q.1, q.2);
    if h < 0 {
        vstd::arithmetic::div_mod::lemma_div_is_ordered(4 * (h * h), 4 * (a * c), ONE as int);
    } else if disc > 0 {
        lemma_sat_sqrt_brackets(disc);
        let root = sat_sqrt(disc);
        assert(a * c >= 250_000) by (nonlinear_arith)
            requires
                a >= 250_000,
                c >= 1,
        ;
        assert(root < 2 * h) by (nonlinear_arith)
            requires
                root >= 0,
                h >= 0,
                root * root <= disc * ONE,
                disc * ONE < 4 * (h * h),
        ;
        lemma_sat_div_sign(sat_add(sat_neg(q.1), root), sat_mul(TWO, q.0));
        lemma_sat_div_sign(sat_sub(sat_neg(q.1), root), sat_mul(TWO, q.0));
    }
}

/// A ray from outside the sphere that heads toward the center and comes
/// nearer to it than the radius hits the sphere, at a positive distance.
pub proof fn lemma_near_ray_hits(s: Sphere, o: Vec3, d: Vec3)
    requires
        in_reach(s, o, d),
        passes_through(s, o, d),
    ensures
        s.spec_ray_intersect(o, d).is_some(),
        s.spec_ray_intersect(o, d).unwrap() > 0,
{
    lemma_discriminant(s, o, d);
    let h = heading(s, o, d);
    let a = d.spec_dot(d);
    let c = clearance(s, o);
    let q = quadratic(s, o, d);
    let disc = discriminant(q.0, q.1, q.2);
    assert(disc > 0);
    lemma_sat_sqrt_brackets(disc);
    let root = sat_sqrt(disc);
    assert(root < 0x400_0000_0000) by (nonlinear_arith)
        requires
            root >= 0,
            root * root <= disc * 1_000_000,
            disc < 0x8000_0000_0000_0000,
    ;
    let above = sat_add(sat_neg(q.1), root);
    assert(above == -2 * h + root);
    assert(above >= 2);
    assert(far_root(q.0, q.1, q.2) == sat_div(above, (2 * a) as i64));
    assert(above * ONE >= 2 * a) by (nonlinear_arith)
        requires
            above >= 2,
            a <= 1_000_000,
    ;
    vstd::arithmetic::div_mod::lemma_div_is_ordered(2 * a, above * ONE, 2 * a);
    vstd::arithmetic::div_mod::lemma_div_basics(2 * a);
}

} // verus!
