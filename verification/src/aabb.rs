//! Axis-aligned boxes and the slab test of a ray against one.
//!
//! On each axis the ray crosses the two planes of the box at two parameters;
//! the smaller opens the slab and the larger closes it. The ray is inside the
//! box between the latest opening, its entry, and the earliest closing, its
//! exit. A ray that runs along the planes of an axis has no crossing there:
//! it misses the box where its origin lies outside that slab.

use vstd::prelude::*;
use crate::fixed::{
    fx_abs, fx_div, fx_max, fx_min, fx_sub, greater, lemma_sat_div_monotone, lemma_sat_div_sign,
    lesser, sat_abs, sat_div, sat_sub, EPSILON, INFINITE, NEG_INFINITE,
};
use crate::vector::Vec3;

verus! {

/// An axis-aligned box, given by its two extreme corners.
#[derive(Clone, Copy, Debug, PartialEq, Eq, Structural)]
pub struct Aabb {
    pub min: Vec3,
    pub max: Vec3,
}

/// A direction component this small counts as running along the slab.
pub open spec fn runs_along(d: i64) -> bool {
    sat_abs(d) < EPSILON
}

/// The ray misses the slab `[lo, hi]` for good: it runs along it, outside.
pub open spec fn slab_rejects(lo: i64, hi: i64, o: i64, d: i64) -> bool {
    runs_along(d) && (o < lo || o > hi)
}

/// The parameter at which the ray enters the slab `[lo, hi]`.
pub open spec fn slab_near(lo: i64, hi: i64, o: i64, d: i64) -> i64 {
    if runs_along(d) {
        NEG_INFINITE
    } else {
        lesser(sat_div(sat_sub(lo, o), d), sat_div(sat_sub(hi, o), d))
    }
}

/// The parameter at which the ray leaves the slab `[lo, hi]`.
pub open spec fn slab_far(lo: i64, hi: i64, o: i64, d: i64) -> i64 {
    if runs_along(d) {
        INFINITE
    } else {
        greater(sat_div(sat_sub(lo, o), d), sat_div(sat_sub(hi, o), d))
    }
}

impl Aabb {
    /// The corners are in order on every axis.
    pub open spec fn wf(self) -> bool {
        self.min.x <= self.max.x && self.min.y <= self.max.y && self.min.z <= self.max.z
    }

    pub open spec fn contains_point(self, p: Vec3) -> bool {
        &&& self.min.x <= p.x <= self.max.x
        &&& self.min.y <= p.y <= self.max.y
        &&& self.min.z <= p.z <= self.max.z
    }

    /// `inner` lies within this box.
    pub open spec fn encloses(self, inner: Aabb) -> bool {
        &&& self.min.x <= inner.min.x && inner.max.x <= self.max.x
        &&& self.min.y <= inner.min.y && inner.max.y <= self.max.y
        &&& self.min.z <= inner.min.z && inner.max.z <= self.max.z
    }

    /// Some axis rules the ray out: it runs along that slab, outside it.
    pub open spec fn rejects(self, o: Vec3, d: Vec3) -> bool {
        ||| slab_rejects(self.min.x, self.max.x, o.x, d.x)
        ||| slab_rejects(self.min.y, self.max.y, o.y, d.y)
        ||| slab_rejects(self.min.z, self.max.z, o.z, d.z)
    }

    /// The parameter from which the ray is inside all three slabs.
    pub open spec fn entry(self, o: Vec3, d: Vec3) -> i64 {
        greater(
            greater(
                slab_near(self.min.x, self.max.x, o.x, d.x),
                slab_near(self.min.y, self.max.y, o.y, d.y),
            ),
            slab_near(self.min.z, self.max.z, o.z, d.z),
        )
    }

    /// The parameter up to which the ray is inside all three slabs.
    pub open spec fn exit(self, o: Vec3, d: Vec3) -> i64 {
        lesser(
            lesser(
                slab_far(self.min.x, self.max.x, o.x, d.x),
                slab_far(self.min.y, self.max.y, o.y, d.y),
            ),
            slab_far(self.min.z, self.max.z, o.z, d.z),
        )
    }

    /// The line of the ray never passes through the box.
    pub open spec fn misses(self, o: Vec3, d: Vec3) -> bool {
        self.rejects(o, d) || self.entry(o, d) > self.exit(o, d)
    }

    /// The distance at which the ray meets the box: the entry where that lies
    /// ahead of the origin, else the exit where that does, else nothing.
    pub open spec fn spec_nearest(self, o: Vec3, d: Vec3) -> Option<i64> {
        if self.misses(o, d) {
            None
        } else if self.entry(o, d) > 0 {
            Some(self.entry(o, d))
        } else if self.exit(o, d) > 0 {
            Some(self.exit(o, d))
        } else {
            None
        }
    }

    /// The ray passes through the box somewhere ahead of its origin.
    pub open spec fn spec_intersects(self, o: Vec3, d: Vec3) -> bool {
        !self.misses(o, d) && self.exit(o, d) > 0
    }

    pub open spec fn spec_center(self) -> Vec3 {
        Vec3 {
            x: midpoint(self.min.x, self.max.x),
            y: midpoint(self.min.y, self.max.y),
            z: midpoint(self.min.z, self.max.z),
        }
    }

    pub fn new(min: Vec3, max: Vec3) -> (b: Aabb)
        ensures
            b == (Aabb { min, max }),
    {
        Aabb { min, max }
    }

    /// The entry and exit parameters of the ray, or nothing where its line
    /// misses the box.
    pub fn window(&self, o: &Vec3, d: &Vec3) -> (w: Option<(i64, i64)>)
        ensures
            w.is_none() == self.misses(*o, *d),
            w.is_some() ==> w.unwrap() == (self.entry(*o, *d), self.exit(*o, *d)),
    {
        let mut t_min: i64 = NEG_INFINITE;
        let mut t_max: i64 = INFINITE;
        match slab(self.min.x, self.max.x, o.x, d.x) {
            None => {
                return None;
            },
            Some((near, far)) => {
                t_min = fx_max(t_min, near);
                t_max = fx_min(t_max, far);
            },
        }
        if t_min > t_max {
            return None;
        }
        match slab(self.min.y, self.max.y, o.y, d.y) {
            None => {
                return None;
            },
            Some((near, far)) => {
                t_min = fx_max(t_min, near);
                t_max = fx_min(t_max, far);
            },
        }
        if t_min > t_max {
            return None;
        }
        match slab(self.min.z, self.max.z, o.z, d.z) {
            None => {
                return None;
            },
            Some((near, far)) => {
                t_min = fx_max(t_min, near);
                t_max = fx_min(t_max, far);
            },
        }
        if t_min > t_max {
            return None;
        }
        Some((t_min, t_max))
    }

    /// The nearest distance ahead of the origin at which the ray meets the box.
    pub fn nearest(&self, o: &Vec3, d: &Vec3) -> (t: Option<i64>)
        ensures
            t == self.spec_nearest(*o, *d),
    {
        match self.window(o, d) {
            None => None,
            Some((t_min, t_max)) => {
                if t_min > 0 {
                    Some(t_min)
                } else if t_max > 0 {
                    Some(t_max)
                } else {
                    None
                }
            },
        }
    }

    /// Whether the ray passes through the box ahead of its origin.
    pub fn intersects(&self, o: &Vec3, d: &Vec3) -> (hit: bool)
        ensures
            hit == self.spec_intersects(*o, *d),
    {
        match self.window(o, d) {
            None => false,
            Some((_, t_max)) => t_max > 0,
        }
    }

    /// The point halfway between the corners.
    pub fn center(&self) -> (c: Vec3)
        ensures
            c == self.spec_center(),
    {
        Vec3 {
            x: mid(self.min.x, self.max.x),
            y: mid(self.min.y, self.max.y),
            z: mid(self.min.z, self.max.z),
        }
    }

    /// Whether a point lies in the box, its faces included.
    pub fn contains(&self, p: &Vec3) -> (inside: bool)
        ensures
            inside == self.contains_point(*p),
    {
        self.min.x <= p.x && p.x <= self.max.x && self.min.y <= p.y && p.y <= self.max.y
            && self.min.z <= p.z && p.z <= self.max.z
    }
}

/// The scalar halfway between two others, rounded down.
pub open spec fn midpoint(a: i64, b: i64) -> i64 {
    ((a + b) / 2) as i64
}

/// The scalar halfway between two others, rounded down.
pub fn mid(a: i64, b: i64) -> (m: i64)
    ensures
        m == midpoint(a, b),
{
    let sum: i128 = a as i128 + b as i128;
    if sum >= 0 {
        (sum / 2) as i64
    } else {
        let up: i128 = (-sum + 1) / 2;
        (-up) as i64
    }
}

/// One axis of the slab test: nothing where the ray runs along the slab
/// outside it, else the parameters at which it enters and leaves the slab.
fn slab(lo: i64, hi: i64, o: i64, d: i64) -> (w: Option<(i64, i64)>)
    ensures
        w.is_none() == slab_rejects(lo, hi, o, d),
        w.is_some() ==> w.unwrap() == (slab_near(lo, hi, o, d), slab_far(lo, hi, o, d)),
{
    if fx_abs(d) < EPSILON {
        if o < lo || o > hi {
            None
        } else {
            Some((NEG_INFINITE, INFINITE))
        }
    } else {
        let t1 = fx_div(fx_sub(lo, o), d);
        let t2 = fx_div(fx_sub(hi, o), d);
        Some((fx_min(t1, t2), fx_max(t1, t2)))
    }
}

/// On one axis, a slab that holds another opens no later and closes no earlier.
pub proof fn lemma_slab_widens(lo: i64, hi: i64, big_lo: i64, big_hi: i64, o: i64, d: i64)
    requires
        big_lo <= lo <= hi <= big_hi,
    ensures
        slab_rejects(big_lo, big_hi, o, d) ==> slab_rejects(lo, hi, o, d),
        slab_near(big_lo, big_hi, o, d) <= slab_near(lo, hi, o, d),
        slab_far(big_lo, big_hi, o, d) >= slab_far(lo, hi, o, d),
{
    if !runs_along(d) {
        lemma_sat_div_monotone(sat_sub(big_lo, o), sat_sub(lo, o), d);
        lemma_sat_div_monotone(sat_sub(lo, o), sat_sub(hi, o), d);
        lemma_sat_div_monotone(sat_sub(hi, o), sat_sub(big_hi, o), d);
    }
}

/// A ray that passes through a box ahead of its origin passes through every
/// box that holds it.
pub proof fn lemma_enclosing_box_is_hit(inner: Aabb, outer: Aabb, o: Vec3, d: Vec3)
    requires
        inner.wf(),
        outer.encloses(inner),
        inner.spec_intersects(o, d),
    ensures
        outer.spec_intersects(o, d),
{
    lemma_slab_widens(inner.min.x, inner.max.x, outer.min.x, outer.max.x, o.x, d.x);
    lemma_slab_widens(inner.min.y, inner.max.y, outer.min.y, outer.max.y, o.y, d.y);
    lemma_slab_widens(inner.min.z, inner.max.z, outer.min.z, outer.max.z, o.z, d.z);
}

/// A hit on a box is a passage through it ahead of the origin.
pub proof fn lemma_nearest_implies_intersects(b: Aabb, o: Vec3, d: Vec3)
    ensures
        b.spec_nearest(o, d).is_some() == b.spec_intersects(o, d),
        b.spec_nearest(o, d).is_some() ==> b.spec_nearest(o, d).unwrap() > 0,
{
}

/// For a ray that starts inside a box, the entry lies behind the origin and
/// the exit ahead of it or on it: the hit, if any, is the exit, never the entry.
pub proof fn lemma_origin_inside(b: Aabb, o: Vec3, d: Vec3)
    requires
        b.contains_point(o),
    ensures
        !b.misses(o, d),
        b.entry(o, d) <= 0 <= b.exit(o, d),
        b.spec_nearest(o, d) == (if b.exit(o, d) > 0 {
            Some(b.exit(o, d))
        } else {
            None
        }),
{
    lemma_slab_inside(b.min.x, b.max.x, o.x, d.x);
    lemma_slab_inside(b.min.y, b.max.y, o.y, d.y);
    lemma_slab_inside(b.min.z, b.max.z, o.z, d.z);
}

/// On one axis, an origin within the slab has entered it and not yet left it.
pub proof fn lemma_slab_inside(lo: i64, hi: i64, o: i64, d: i64)
    requires
        lo <= o <= hi,
    ensures
        !slab_rejects(lo, hi, o, d),
        slab_near(lo, hi, o, d) <= 0 <= slab_far(lo, hi, o, d),
{
    if !runs_along(d) {
        lemma_sat_div_sign(sat_sub(lo, o), d);
        lemma_sat_div_sign(sat_sub(hi, o), d);
    }
}

/// A ray that runs along the slab of some axis, outside it, misses the box
/// whatever its other two components are.
pub proof fn lemma_parallel_outside_misses(b: Aabb, o: Vec3, d: Vec3, axis: int)
    requires
        0 <= axis < 3,
        runs_along(d.axis(axis)),
        o.axis(axis) < b.min.axis(axis) || o.axis(axis) > b.max.axis(axis),
    ensures
        b.spec_nearest(o, d).is_none(),
        !b.spec_intersects(o, d),
{
}

} // verus!
