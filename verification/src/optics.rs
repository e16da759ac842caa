//! Mirror reflection, refraction by Snell's law, and the Fresnel term in
//! Schlick's approximation.

use vstd::prelude::*;
use crate::fixed::{
    clamped, fx_clamp, fx_mul, fx_neg, fx_ratio, fx_sqrt, fx_sub, fx_add, lemma_sat_mul_unit,
    sat_add, sat_mul, sat_neg, sat_ratio, sat_sqrt, sat_sub, NEG_ONE, ONE, TWO,
};
use crate::vector::Vec3;

verus! {

/// The direction of a ray after a mirror reflection: `d - 2 (d . n) n`.
pub open spec fn spec_reflect(dir: Vec3, normal: Vec3) -> Vec3 {
    dir.spec_minus(normal.spec_scale(TWO).spec_scale(dir.spec_dot(normal)))
}

/// The cosine of the angle between two unit vectors, held between -1 and 1.
pub open spec fn cosine(a: Vec3, b: Vec3) -> i64 {
    clamped(a.spec_dot(b), NEG_ONE, ONE)
}

/// The ratio of the refractive indices across the surface, in the order in
/// which the ray crosses it: a ray that runs against the normal enters the
/// medium of index `eta` from one of index 1; any other ray leaves it.
pub open spec fn eta_ratio(incident: Vec3, normal: Vec3, eta: i64) -> i64 {
    if cosine(incident, normal) < 0 {
        sat_ratio(ONE, eta)
    } else {
        sat_ratio(eta, ONE)
    }
}

/// The square of the cosine of the angle of the transmitted ray; negative
/// where the ray is reflected totally.
pub open spec fn transmission(incident: Vec3, normal: Vec3, eta: i64) -> i64 {
    let c = cosine(incident, normal);
    let cosi = if c < 0 {
        sat_neg(c)
    } else {
        c
    };
    let r = eta_ratio(incident, normal, eta);
    sat_sub(ONE, sat_mul(sat_mul(r, r), sat_sub(ONE, sat_mul(cosi, cosi))))
}

/// The direction of a ray after refraction, or nothing where the ray is
/// reflected totally.
pub open spec fn spec_refract(incident: Vec3, normal: Vec3, eta: i64) -> Option<Vec3> {
    let c = cosine(incident, normal);
    let cosi = if c < 0 {
        sat_neg(c)
    } else {
        c
    };
    let n = if c < 0 {
        normal
    } else {
        normal.spec_negated()
    };
    let r = eta_ratio(incident, normal, eta);
    let k = transmission(incident, normal, eta);
    if k < 0 {
        None
    } else {
        Some(incident.spec_scale(r).spec_plus(n.spec_scale(sat_sub(sat_mul(r, cosi), sat_sqrt(k)))))
    }
}

/// The reflectance at normal incidence of a surface between a medium of
/// index 1 and one of index `ior`: `((ior - 1) / (ior + 1))^2`.
pub open spec fn base_reflectance(ior: i64) -> i64 {
    let q = sat_ratio(sat_sub(ior, ONE), sat_add(ior, ONE));
    sat_mul(q, q)
}

/// The fifth power of a scalar.
pub open spec fn fifth_power(x: i64) -> i64 {
    sat_mul(sat_mul(sat_mul(sat_mul(x, x), x), x), x)
}

/// The share of the light that a surface reflects, by Schlick's
/// approximation: `r0 + (1 - r0) (1 - |cos|)^5`.
pub open spec fn spec_fresnel(incident: Vec3, normal: Vec3, ior: i64) -> i64 {
    let c = cosine(incident, normal);
    let cosi = if c > 0 {
        c
    } else {
        sat_neg(c)
    };
    let r0 = base_reflectance(ior);
    sat_add(r0, sat_mul(sat_sub(ONE, r0), fifth_power(sat_sub(ONE, cosi))))
}

pub fn reflect(dir: &Vec3, normal: &Vec3) -> (r: Vec3)
    ensures
        r == spec_reflect(*dir, *normal),
{
    dir.minus(&normal.scale(TWO).scale(dir.dot(normal)))
}

pub fn refract(incident: &Vec3, normal: &Vec3, eta: i64) -> (r: Option<Vec3>)
    ensures
        r == spec_refract(*incident, *normal, eta),
{
    let mut n = *normal;
    let mut cosi = fx_clamp(incident.dot(&n), NEG_ONE, ONE);
    let mut etai = ONE;
    let mut etat = eta;
    if cosi < 0 {
        cosi = fx_neg(cosi);
    } else {
        etai = eta;
        etat = ONE;
        n = n.negated();
    }
    let eta_ratio = fx_ratio(etai, etat);
    let k = fx_sub(ONE, fx_mul(fx_mul(eta_ratio, eta_ratio), fx_sub(ONE, fx_mul(cosi, cosi))));
    if k < 0 {
        None
    } else {
        Some(
            incident.scale(eta_ratio).plus(&n.scale(fx_sub(fx_mul(eta_ratio, cosi), fx_sqrt(k)))),
        )
    }
}

pub fn fresnel(incident: &Vec3, normal: &Vec3, ior: i64) -> (kr: i64)
    ensures
        kr == spec_fresnel(*incident, *normal, ior),
{
    let c = fx_clamp(incident.dot(normal), NEG_ONE, ONE);
    let cosi = if c > 0 {
        c
    } else {
        fx_neg(c)
    };
    let q = fx_ratio(fx_sub(ior, ONE), fx_add(ior, ONE));
    let r0 = fx_mul(q, q);
    let x = fx_sub(ONE, cosi);
    let x5 = fx_mul(fx_mul(fx_mul(fx_mul(x, x), x), x), x);
    fx_add(r0, fx_mul(fx_sub(ONE, r0), x5))
}

/// For a ray along the normal, with it or against it, the Fresnel term is
/// the reflectance at normal incidence.
pub proof fn lemma_fresnel_normal_incidence(incident: Vec3, normal: Vec3, ior: i64)
    requires
        incident.spec_dot(normal) >= ONE || incident.spec_dot(normal) <= NEG_ONE,
    ensures
        spec_fresnel(incident, normal, ior) == base_reflectance(ior),
{
    let r0 = base_reflectance(ior);
    lemma_sat_mul_unit(0);
    lemma_sat_mul_unit(sat_sub(ONE, r0));
}

/// For a ray that grazes the surface, at a right angle to the normal, the
/// Fresnel term is 1: everything is reflected.
pub proof fn lemma_fresnel_grazing(incident: Vec3, normal: Vec3, ior: i64)
    requires
        incident.spec_dot(normal) == 0,
    ensures
        spec_fresnel(incident, normal, ior) == ONE,
{
    let r0 = base_reflectance(ior);
    lemma_sat_mul_unit(ONE);
    lemma_sat_mul_unit(sat_sub(ONE, r0));
    lemma_square_not_negative(sat_ratio(sat_sub(ior, ONE), sat_add(ior, ONE)));
}

/// The square of a scalar is not negative.
pub proof fn lemma_square_not_negative(q: i64)
    ensures
        sat_mul(q, q) >= 0,
{
    assert(q * q >= 0) by (nonlinear_arith);
    vstd::arithmetic::div_mod::lemma_div_pos_is_pos(q * q, ONE as int);
}

} // verus!
