//! The background: a cube map of six textures, or an analytic gradient.

use vstd::prelude::*;
use crate::color::{channel_of, to_channel, Color};
use crate::fixed::{
    clamped, fx_abs, fx_add, fx_clamp, fx_div, fx_mul, fx_neg, fx_ratio, fx_sub, sat_abs, sat_add,
    sat_div, sat_mul, sat_neg, sat_ratio, sat_sub, ONE,
};
use crate::texture::{Pattern, Texture};
use crate::vector::Vec3;

verus! {

/// The scalar that stands for one half.
pub const HALF: i64 = 500_000;

/// The height of a direction above which the gradient sky begins: 0.1.
pub const HORIZON: i64 = 100_000;

/// The span of heights over which the gradient sky runs: 0.9.
pub const SKY_SPAN: i64 = 900_000;

/// Six textures, one for each face of the cube around the scene.
#[derive(Clone, Debug)]
pub struct Skybox {
    /// The face toward positive x, to the right.
    pub px: Texture,
    /// The face toward negative x, to the left.
    pub nx: Texture,
    /// The face toward positive y, overhead.
    pub py: Texture,
    /// The face toward negative y, below.
    pub ny: Texture,
    /// The face toward positive z, ahead.
    pub pz: Texture,
    /// The face toward negative z, behind.
    pub nz: Texture,
}

/// The faces of the cube map.
#[derive(Clone, Copy, Debug, PartialEq, Eq, Structural)]
pub enum SkyFace {
    Px,
    Nx,
    Py,
    Ny,
    Pz,
    Nz,
}

/// Maps a ratio from the range -1 to 1 into the range 0 to 1.
pub open spec fn unit_range(r: i64) -> i64 {
    sat_mul(sat_add(r, ONE), HALF)
}

/// The face that a direction points at, and the surface coordinates on it:
/// the face of the component of greatest magnitude, x before y before z
/// among equals, and the other two components divided by it.
pub open spec fn spec_lookup(direction: Vec3) -> (SkyFace, i64, i64) {
    let dir = direction.spec_direction();
    let ax = sat_abs(dir.x);
    let ay = sat_abs(dir.y);
    let az = sat_abs(dir.z);
    if ax >= ay && ax >= az {
        if dir.x > 0 {
            (
                SkyFace::Px,
                unit_range(sat_ratio(sat_neg(dir.z), ax)),
                unit_range(sat_ratio(sat_neg(dir.y), ax)),
            )
        } else {
            (SkyFace::Nx, unit_range(sat_ratio(dir.z, ax)), unit_range(sat_ratio(sat_neg(dir.y), ax)))
        }
    } else if ay >= ax && ay >= az {
        if dir.y > 0 {
            (SkyFace::Py, unit_range(sat_ratio(dir.x, ay)), unit_range(sat_ratio(dir.z, ay)))
        } else {
            (SkyFace::Ny, unit_range(sat_ratio(dir.x, ay)), unit_range(sat_ratio(sat_neg(dir.z), ay)))
        }
    } else {
        if dir.z > 0 {
            (SkyFace::Pz, unit_range(sat_ratio(dir.x, az)), unit_range(sat_ratio(sat_neg(dir.y), az)))
        } else {
            (
                SkyFace::Nz,
                unit_range(sat_ratio(sat_neg(dir.x), az)),
                unit_range(sat_ratio(sat_neg(dir.y), az)),
            )
        }
    }
}

/// The gradient sky: a ground tone up to the horizon, and above it a blue
/// that lightens with the height of the direction.
pub open spec fn gradient_sky(dir: Vec3) -> Color {
    if dir.y > HORIZON {
        let t = clamped(sat_div(sat_sub(dir.y, HORIZON), SKY_SPAN), 0, ONE);
        Color {
            r: channel_of(sat_add(100_000_000, sat_mul(t, 80_000_000))),
            g: channel_of(sat_add(180_000_000, sat_mul(t, 50_000_000))),
            b: 255,
        }
    } else {
        Color { r: 120, g: 160, b: 200 }
    }
}

/// The color of the background in a direction: that of the cube map where
/// there is one, else that of the gradient sky.
pub open spec fn spec_sample_sky(skybox: Option<Skybox>, dir: Vec3) -> Color {
    match skybox {
        Some(sb) => sb.spec_sample(dir),
        None => gradient_sky(dir),
    }
}

impl Skybox {
    /// Every face has texels.
    pub open spec fn wf(self) -> bool {
        &&& self.px.width > 0 && self.px.height > 0
        &&& self.nx.width > 0 && self.nx.height > 0
        &&& self.py.width > 0 && self.py.height > 0
        &&& self.ny.width > 0 && self.ny.height > 0
        &&& self.pz.width > 0 && self.pz.height > 0
        &&& self.nz.width > 0 && self.nz.height > 0
    }

    /// Every face carries its procedural pattern.
    pub open spec fn is_procedural(self) -> bool {
        &&& self.px.shows(Pattern::SkyRight)
        &&& self.nx.shows(Pattern::SkyLeft)
        &&& self.py.shows(Pattern::SkyTop)
        &&& self.ny.shows(Pattern::SkyBottom)
        &&& self.pz.shows(Pattern::SkyFront)
        &&& self.nz.shows(Pattern::SkyBack)
    }

    pub open spec fn face(self, f: SkyFace) -> Texture {
        match f {
            SkyFace::Px => self.px,
            SkyFace::Nx => self.nx,
            SkyFace::Py => self.py,
            SkyFace::Ny => self.ny,
            SkyFace::Pz => self.pz,
            SkyFace::Nz => self.nz,
        }
    }

    /// The color of the cube map in a direction.
    pub open spec fn spec_sample(self, direction: Vec3) -> Color {
        let (f, u, v) = spec_lookup(direction);
        self.face(f).spec_sample(u, v)
    }

    /// The sky of six procedural faces.
    pub fn create_procedural_sky() -> (s: Skybox)
        ensures
            s.is_procedural(),
            s.wf(),
    {
        Skybox {
            px: Self::create_sky_texture_right(),
            nx: Self::create_sky_texture_left(),
            py: Self::create_sky_texture_top(),
            ny: Self::create_sky_texture_bottom(),
            pz: Self::create_sky_texture_front(),
            nz: Self::create_sky_texture_back(),
        }
    }

    pub fn create_sky_texture_top() -> (t: Texture)
        ensures
            t.shows(Pattern::SkyTop),
    {
        Texture::from_pattern(Pattern::SkyTop)
    }

    pub fn create_sky_texture_bottom() -> (t: Texture)
        ensures
            t.shows(Pattern::SkyBottom),
    {
        Texture::from_pattern(Pattern::SkyBottom)
    }

    pub fn create_sky_texture_front() -> (t: Texture)
        ensures
            t.shows(Pattern::SkyFront),
    {
        Texture::from_pattern(Pattern::SkyFront)
    }

    pub fn create_sky_texture_back() -> (t: Texture)
        ensures
            t.shows(Pattern::SkyBack),
    {
        Texture::from_pattern(Pattern::SkyBack)
    }

    pub fn create_sky_texture_left() -> (t: Texture)
        ensures
            t.shows(Pattern::SkyLeft),
    {
        Texture::from_pattern(Pattern::SkyLeft)
    }

    pub fn create_sky_texture_right() -> (t: Texture)
        ensures
            t.shows(Pattern::SkyRight),
    {
        Texture::from_pattern(Pattern::SkyRight)
    }

    /// The color of the cube map in a direction, which need not have unit length.
    pub fn sample(&self, direction: &Vec3) -> (c: Color)
        requires
            self.wf(),
        ensures
            c == self.spec_sample(*direction),
    {
        let (f, u, v) = lookup(direction);
        match f {
            SkyFace::Px => self.px.sample(u, v),
            SkyFace::Nx => self.nx.sample(u, v),
            SkyFace::Py => self.py.sample(u, v),
            SkyFace::Ny => self.ny.sample(u, v),
            SkyFace::Pz => self.pz.sample(u, v),
            SkyFace::Nz => self.nz.sample(u, v),
        }
    }
}

/// The face of the cube map that a direction points at, and the surface
/// coordinates on it.
pub fn lookup(direction: &Vec3) -> (r: (SkyFace, i64, i64))
    ensures
        r == spec_lookup(*direction),
{
    let dir = direction.direction();
    let abs_x = fx_abs(dir.x);
    let abs_y = fx_abs(dir.y);
    let abs_z = fx_abs(dir.z);
    if abs_x >= abs_y && abs_x >= abs_z {
        if dir.x > 0 {
            (SkyFace::Px, spread(fx_neg(dir.z), abs_x), spread(fx_neg(dir.y), abs_x))
        } else {
            (SkyFace::Nx, spread(dir.z, abs_x), spread(fx_neg(dir.y), abs_x))
        }
    } else if abs_y >= abs_x && abs_y >= abs_z {
        if dir.y > 0 {
            (SkyFace::Py, spread(dir.x, abs_y), spread(dir.z, abs_y))
        } else {
            (SkyFace::Ny, spread(dir.x, abs_y), spread(fx_neg(dir.z), abs_y))
        }
    } else {
        if dir.z > 0 {
            (SkyFace::Pz, spread(dir.x, abs_z), spread(fx_neg(dir.y), abs_z))
        } else {
            (SkyFace::Nz, spread(fx_neg(dir.x), abs_z), spread(fx_neg(dir.y), abs_z))
        }
    }
}

/// The color of the background in a direction.
pub fn sample_sky(skybox: &Option<Skybox>, dir: &Vec3) -> (c: Color)
    requires
        skybox.is_some() ==> skybox.unwrap().wf(),
    ensures
        c == spec_sample_sky(*skybox, *dir),
{
    match skybox {
        Some(sb) => sb.sample(dir),
        None => {
            if dir.y > HORIZON {
                let t = fx_clamp(fx_div(fx_sub(dir.y, HORIZON), SKY_SPAN), 0, ONE);
                Color {
                    r: to_channel(fx_add(100_000_000, fx_mul(t, 80_000_000))),
                    g: to_channel(fx_add(180_000_000, fx_mul(t, 50_000_000))),
                    b: 255,
                }
            } else {
                Color { r: 120, g: 160, b: 200 }
            }
        },
    }
}

fn spread(a: i64, m: i64) -> (r: i64)
    ensures
        r == unit_range(sat_ratio(a, m)),
{
    fx_mul(fx_add(fx_ratio(a, m), ONE), HALF)
}

} // verus!
