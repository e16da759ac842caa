//! The shading engine: the light that a point of a surface shows by
//! itself and under the lights of the scene, and the color of a ray, which
//! follows reflection and refraction down to a given depth.

use vstd::prelude::*;
use vstd::arithmetic::power2::{lemma_pow2_pos, lemma_pow2_unfold, pow2};
use crate::color::{scalar_of, to_scalar, Color};
use crate::fixed::{
    clamped, fx_add, fx_clamp, fx_div, fx_max, fx_mul, fx_ratio, fx_sub, greater, sat_add, sat_div,
    sat_mul, sat_ratio, sat_sub, BIAS, ONE,
};
use crate::light::Light;
use crate::material::{Material, EMISSION_BOOST};
use crate::optics::{fresnel, reflect, refract, spec_fresnel, spec_reflect, spec_refract};
use crate::scene::{Hit, Scene, TextureSet};
use crate::skybox::{sample_sky, spec_sample_sky};
use crate::vector::Vec3;

verus! {

/// The weight of the distance in the falloff of light: 0.015.
pub const ATTENUATION_LINEAR: i64 = 15_000;

/// The weight of the squared distance in the falloff of light: 0.0008.
pub const ATTENUATION_QUADRATIC: i64 = 800;

/// The scalar of a full channel: 255.
pub const CHANNEL_MAX: i64 = 255_000_000;

/// The depth to which a primary ray is followed.
pub const MAX_DEPTH: u32 = 3;

/// Counts the rays that were traced.
pub struct RenderStats {
    /// The rays that were tested against the scene; the count stops at the
    /// greatest value it can hold.
    pub rays_cast: u64,
}

/// A count raised by `n`, held at the greatest value of the counter.
pub open spec fn raised(count: u64, n: nat) -> u64 {
    if count + n > u64::MAX {
        u64::MAX
    } else {
        (count + n) as u64
    }
}

/// The color of the surface itself at a hit: that of its texture where the
/// material has one and the primitive has surface coordinates, else the
/// base color of the material.
pub open spec fn spec_base_color(textures: TextureSet, hit: Hit) -> Color {
    if hit.material.has_texture && hit.uv.is_some() {
        match textures.spec_sample(hit.material.kind, hit.uv.unwrap().0, hit.uv.unwrap().1) {
            Some(c) => c,
            None => hit.material.diffuse,
        }
    } else {
        hit.material.diffuse
    }
}

/// One channel of what a surface shows without any light: its ambient
/// share, and for an emissive material its boosted glow.
pub open spec fn glow(base: u8, tint: u8, m: Material) -> i64 {
    let ambient = sat_mul(scalar_of(base), m.kind.spec_ambient_strength());
    if m.spec_is_emissive() {
        sat_add(
            ambient,
            sat_mul(sat_mul(scalar_of(tint), m.spec_emission_intensity()), EMISSION_BOOST),
        )
    } else {
        ambient
    }
}

/// What a surface shows without any light, channel by channel.
pub open spec fn spec_unlit(base: Color, m: Material) -> Vec3 {
    Vec3 {
        x: glow(base.r, m.spec_emission_color().r, m),
        y: glow(base.g, m.spec_emission_color().g, m),
        z: glow(base.b, m.spec_emission_color().b, m),
    }
}

/// The falloff of light with distance: `1 / (1 + 0.015 d + 0.0008 d^2)`.
pub open spec fn attenuation(distance: i64) -> i64 {
    sat_ratio(
        ONE,
        sat_add(
            sat_add(ONE, sat_mul(ATTENUATION_LINEAR, distance)),
            sat_mul(sat_mul(ATTENUATION_QUADRATIC, distance), distance),
        ),
    )
}

/// The unit vector from a hit toward a light.
pub open spec fn toward(hit: Hit, light: Light) -> Vec3 {
    light.position.spec_minus(hit.point).spec_direction()
}

/// How strongly a light that is not blocked lights a hit: the cosine of
/// its angle to the normal, not below 0, times the intensity, the falloff
/// and the factor of the kind of surface.
pub open spec fn light_strength(hit: Hit, light: Light) -> i64 {
    let diff = greater(hit.normal.spec_dot(toward(hit, light)), 0);
    sat_mul(
        sat_mul(
            sat_mul(diff, light.intensity),
            attenuation(light.position.spec_distance(hit.point)),
        ),
        hit.material.kind.spec_surface_multiplier(),
    )
}

/// The origin of a ray that leaves a hit on the side of the normal.
pub open spec fn lifted(hit: Hit) -> Vec3 {
    hit.point.spec_plus(hit.normal.spec_scale(BIAS))
}

/// The origin of a ray that leaves a hit through the surface.
pub open spec fn sunk(hit: Hit) -> Vec3 {
    hit.point.spec_minus(hit.normal.spec_scale(BIAS))
}

/// Whether a light is blocked at a hit. A surface of a kind that is exempt
/// from shadows is never in shadow.
pub open spec fn in_shadow(scene: Scene, hit: Hit, light: Light) -> bool {
    !hit.material.kind.spec_shadow_exempt() && scene.spec_occluded(
        lifted(hit),
        toward(hit, light),
        light.position.spec_distance(hit.point),
    )
}

/// One channel after a light was added: the base times the color of the
/// light, as a share of a full channel, times the strength.
pub open spec fn lit_channel(total: i64, base: u8, light: u8, strength: i64) -> i64 {
    sat_add(
        total,
        sat_mul(sat_div(sat_mul(scalar_of(base), scalar_of(light)), CHANNEL_MAX), strength),
    )
}

/// The sums of the channels after one more light.
pub open spec fn add_light(scene: Scene, hit: Hit, base: Color, total: Vec3, light: Light) -> Vec3 {
    if in_shadow(scene, hit, light) {
        total
    } else {
        let strength = light_strength(hit, light);
        Vec3 {
            x: lit_channel(total.x, base.r, light.color.r, strength),
            y: lit_channel(total.y, base.g, light.color.g, strength),
            z: lit_channel(total.z, base.b, light.color.b, strength),
        }
    }
}

/// The sums of the channels after the first `n` lights of the scene.
pub open spec fn lit_by(scene: Scene, hit: Hit, base: Color, n: int) -> Vec3
    decreases n,
{
    if n <= 0 {
        spec_unlit(base, hit.material)
    } else {
        add_light(scene, hit, base, lit_by(scene, hit, base, n - 1), scene.lights@[n - 1])
    }
}

/// The color that a hit shows by itself and under the lights of the scene.
pub open spec fn spec_calculate_lighting(scene: Scene, hit: Hit) -> Color {
    Color::spec_from_vec3(
        lit_by(scene, hit, spec_base_color(scene.textures, hit), scene.lights@.len() as int),
    )
}

/// The Fresnel term of a material for a ray, held between 0 and 1.
pub open spec fn reflectance(m: Material, dir: Vec3, normal: Vec3) -> i64 {
    clamped(spec_fresnel(dir, normal, m.refractive_index), 0, ONE)
}

/// The color of a hit, made of its own, the reflected and the refracted
/// one. A transparent surface shows its own color by the share that it does
/// not transmit, the reflection by the Fresnel term, and the refraction by
/// what remains of the transmitted share. A surface that only reflects
/// shares between its own color and the reflection by the Fresnel term.
/// Any other surface shows its own color.
pub open spec fn spec_blend(
    m: Material,
    dir: Vec3,
    normal: Vec3,
    local: Color,
    reflected: Color,
    refracted: Color,
) -> Color {
    let kr = reflectance(m, dir, normal);
    if m.spec_is_transparent() {
        let t = m.albedo_transmission;
        Color::spec_from_vec3(
            local.spec_to_vec3().spec_scale(sat_sub(ONE, t)).spec_plus(
                reflected.spec_to_vec3().spec_scale(kr),
            ).spec_plus(refracted.spec_to_vec3().spec_scale(sat_sub(ONE, kr)).spec_scale(t)),
        )
    } else if m.spec_is_reflective() {
        Color::spec_from_vec3(
            local.spec_to_vec3().spec_scale(sat_sub(ONE, kr)).spec_plus(
                reflected.spec_to_vec3().spec_scale(kr),
            ),
        )
    } else {
        local
    }
}

/// The color of a ray that is followed through `depth` surfaces: that of
/// the sky where the depth is used up or the ray meets nothing; else the
/// blend of what the hit shows with what the reflected and the refracted
/// ray show at one depth less.
pub open spec fn spec_cast_ray(scene: Scene, o: Vec3, d: Vec3, depth: nat) -> Color
    decreases depth,
{
    if depth == 0 {
        spec_sample_sky(scene.skybox, d)
    } else {
        match scene.spec_find_hit(o, d) {
            None => spec_sample_sky(scene.skybox, d),
            Some(hit) => {
                let local = spec_calculate_lighting(scene, hit);
                let reflected = if hit.material.spec_is_reflective() {
                    spec_cast_ray(
                        scene,
                        lifted(hit),
                        spec_reflect(d, hit.normal),
                        (depth - 1) as nat,
                    )
                } else {
                    Color { r: 0, g: 0, b: 0 }
                };
                let refracted = if hit.material.spec_is_transparent() {
                    match spec_refract(d, hit.normal, hit.material.refractive_index) {
                        Some(dir) => spec_cast_ray(scene, sunk(hit), dir, (depth - 1) as nat),
                        None => Color { r: 0, g: 0, b: 0 },
                    }
                } else {
                    Color { r: 0, g: 0, b: 0 }
                };
                spec_blend(hit.material, d, hit.normal, local, reflected, refracted)
            },
        }
    }
}

/// The number of rays that are tested against the scene for one ray
/// followed through `depth` surfaces.
pub open spec fn spec_rays(scene: Scene, o: Vec3, d: Vec3, depth: nat) -> nat
    decreases depth,
{
    if depth == 0 {
        0
    } else {
        match scene.spec_find_hit(o, d) {
            None => 1,
            Some(hit) => {
                let reflected = if hit.material.spec_is_reflective() {
                    spec_rays(scene, lifted(hit), spec_reflect(d, hit.normal), (depth - 1) as nat)
                } else {
                    0
                };
                let refracted = if hit.material.spec_is_transparent() {
                    match spec_refract(d, hit.normal, hit.material.refractive_index) {
                        Some(dir) => spec_rays(scene, sunk(hit), dir, (depth - 1) as nat),
                        None => 0,
                    }
                } else {
                    0
                };
                1 + reflected + refracted
            },
        }
    }
}

impl RenderStats {
    pub fn new() -> (s: RenderStats)
        ensures
            s.rays_cast == 0,
    {
        RenderStats { rays_cast: 0 }
    }

    pub fn reset(&mut self)
        ensures
            final(self).rays_cast == 0,
    {
        self.rays_cast = 0;
    }
}

impl Scene {
    /// The color of the surface itself at a hit.
    pub fn base_color(&self, hit: &Hit) -> (c: Color)
        requires
            self.wf(),
        ensures
            c == spec_base_color(self.textures, *hit),
    {
        if hit.material.has_texture {
            match hit.uv {
                Some((u, v)) => {
                    match self.textures.sample(hit.material.kind, u, v) {
                        Some(c) => c,
                        None => hit.material.diffuse,
                    }
                },
                None => hit.material.diffuse,
            }
        } else {
            hit.material.diffuse
        }
    }

    /// The color that a hit shows by itself and under the lights of the
    /// scene: its ambient share and its glow, and for every light that
    /// nothing blocks the diffuse share of that light. The color depends
    /// on the scene and the hit alone.
    pub fn calculate_lighting(&self, hit: &Hit) -> (c: Color)
        requires
            self.wf(),
        ensures
            c == spec_calculate_lighting(*self, *hit),
    {
        let base = self.base_color(hit);
        let material = hit.material;
        let tint = material.emission_color();
        let mut total = Vec3 {
            x: unlit_channel(base.r, tint.r, &material),
            y: unlit_channel(base.g, tint.g, &material),
            z: unlit_channel(base.b, tint.b, &material),
        };
        let shadow_origin = hit.point.plus(&hit.normal.scale(BIAS));
        let mut i: usize = 0;
        while i < self.lights.len()
            invariant
                i <= self.lights@.len(),
                self.wf(),
                base == spec_base_color(self.textures, *hit),
                material == hit.material,
                shadow_origin == lifted(*hit),
                total == lit_by(*self, *hit, base, i as int),
            decreases self.lights@.len() - i,
        {
            let light = &self.lights[i];
            let light_dir = light.position.minus(&hit.point).direction();
            let light_distance = light.position.distance(&hit.point);
            let mut shadowed = false;
            if !material.kind.shadow_exempt() {
                shadowed = self.occluded(&shadow_origin, &light_dir, light_distance);
            }
            if !shadowed {
                let diff = fx_max(hit.normal.dot(&light_dir), 0);
                let falloff = fx_ratio(
                    ONE,
                    fx_add(
                        fx_add(ONE, fx_mul(ATTENUATION_LINEAR, light_distance)),
                        fx_mul(fx_mul(ATTENUATION_QUADRATIC, light_distance), light_distance),
                    ),
                );
                let strength = fx_mul(
                    fx_mul(fx_mul(diff, light.intensity), falloff),
                    material.kind.surface_multiplier(),
                );
                total =
                Vec3 {
                    x: add_channel(total.x, base.r, light.color.r, strength),
                    y: add_channel(total.y, base.g, light.color.g, strength),
                    z: add_channel(total.z, base.b, light.color.b, strength),
                };
            }
            i = i + 1;
        }
        Color::from_vec3(total)
    }

    /// The color of a ray, followed through at most `depth` surfaces. Each
    /// ray that is tested against the scene is counted in `stats`, and
    /// fewer than two to the power `depth` are. The color depends on the
    /// scene, the ray and the depth alone: what was counted before has no
    /// part in it, and the same ray shows the same color every time.
    pub fn cast_ray(&self, ray_origin: &Vec3, ray_direction: &Vec3, depth: u32, stats: &mut RenderStats) -> (c:
        Color)
        requires
            self.wf(),
        ensures
            c == spec_cast_ray(*self, *ray_origin, *ray_direction, depth as nat),
            final(stats).rays_cast == raised(
                old(stats).rays_cast,
                spec_rays(*self, *ray_origin, *ray_direction, depth as nat),
            ),
            spec_rays(*self, *ray_origin, *ray_direction, depth as nat) < pow2(depth as nat),
            self.spec_find_hit(*ray_origin, *ray_direction).is_none() ==> c == spec_sample_sky(
                self.skybox,
                *ray_direction,
            ),
        decreases depth,
    {
        proof {
            lemma_rays_bounded(*self, *ray_origin, *ray_direction, depth as nat);
        }
        if depth == 0 {
            return sample_sky(&self.skybox, ray_direction);
        }
        if stats.rays_cast < u64::MAX {
            stats.rays_cast = stats.rays_cast + 1;
        }
        let hit = match self.find_hit(ray_origin, ray_direction) {
            None => {
                return sample_sky(&self.skybox, ray_direction);
            },
            Some(hit) => hit,
        };
        let local = self.calculate_lighting(&hit);
        let material = hit.material;
        let mut reflected = Color::black();
        if material.is_reflective() {
            let dir = reflect(ray_direction, &hit.normal);
            let origin = hit.point.plus(&hit.normal.scale(BIAS));
            reflected = self.cast_ray(&origin, &dir, depth - 1, stats);
        }
        let mut refracted = Color::black();
        if material.is_transparent() {
            match refract(ray_direction, &hit.normal, material.refractive_index) {
                Some(dir) => {
                    let origin = hit.point.minus(&hit.normal.scale(BIAS));
                    refracted = self.cast_ray(&origin, &dir, depth - 1, stats);
                },
                None => {},
            }
        }
        blend(&material, ray_direction, &hit.normal, local, reflected, refracted)
    }
}

/// The color of a hit, made of its own, the reflected and the refracted one.
pub fn blend(
    material: &Material,
    dir: &Vec3,
    normal: &Vec3,
    local: Color,
    reflected: Color,
    refracted: Color,
) -> (c: Color)
    ensures
        c == spec_blend(*material, *dir, *normal, local, reflected, refracted),
{
    if material.is_transparent() || material.is_reflective() {
        let kr = fx_clamp(fresnel(dir, normal, material.refractive_index), 0, ONE);
        if material.is_transparent() {
            let t = material.albedo_transmission;
            let reflected_part = reflected.to_vec3().scale(kr);
            let refracted_part = refracted.to_vec3().scale(fx_sub(ONE, kr)).scale(t);
            let base_part = local.to_vec3().scale(fx_sub(ONE, t));
            Color::from_vec3(base_part.plus(&reflected_part).plus(&refracted_part)).clamp()
        } else {
            Color::from_vec3(
                local.to_vec3().scale(fx_sub(ONE, kr)).plus(&reflected.to_vec3().scale(kr)),
            ).clamp()
        }
    } else {
        local.clamp()
    }
}

fn unlit_channel(base: u8, tint: u8, material: &Material) -> (v: i64)
    ensures
        v == glow(base, tint, *material),
{
    let ambient = fx_mul(to_scalar(base), material.kind.ambient_strength());
    if material.is_emissive() {
        fx_add(ambient, fx_mul(fx_mul(to_scalar(tint), material.emission_intensity()), EMISSION_BOOST))
    } else {
        ambient
    }
}

fn add_channel(total: i64, base: u8, light: u8, strength: i64) -> (v: i64)
    ensures
        v == lit_channel(total, base, light, strength),
{
    fx_add(total, fx_mul(fx_div(fx_mul(to_scalar(base), to_scalar(light)), CHANNEL_MAX), strength))
}

/// A ray followed through `depth` surfaces has fewer than `2^depth` rays
/// tested against the scene, whatever the materials: the search ends.
pub proof fn lemma_rays_bounded(scene: Scene, o: Vec3, d: Vec3, depth: nat)
    ensures
        spec_rays(scene, o, d, depth) < pow2(depth),
    decreases depth,
{
    lemma_pow2_pos(depth);
    if depth > 0 {
        lemma_pow2_unfold(depth);
        match scene.spec_find_hit(o, d) {
            None => {},
            Some(hit) => {
                lemma_rays_bounded(
                    scene,
                    lifted(hit),
                    spec_reflect(d, hit.normal),
                    (depth - 1) as nat,
                );
                match spec_refract(d, hit.normal, hit.material.refractive_index) {
                    Some(dir) => {
                        lemma_rays_bounded(scene, sunk(hit), dir, (depth - 1) as nat);
                    },
                    None => {},
                }
            },
        }
    }
}

/// A ray that meets nothing shows the sky in its direction, and no
/// further ray is followed for it.
pub proof fn lemma_miss_shows_sky(scene: Scene, o: Vec3, d: Vec3, depth: nat)
    requires
        scene.spec_find_hit(o, d).is_none(),
    ensures
        spec_cast_ray(scene, o, d, depth) == spec_sample_sky(scene.skybox, d),
        spec_rays(scene, o, d, depth) <= 1,
{
}

} // verus!
