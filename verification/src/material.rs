//! Surface materials and the shading constants that go with each kind.

use vstd::prelude::*;
use crate::color::Color;

verus! {

/// The kind of a surface, which selects its shading rules.
#[derive(Clone, Copy, Debug, PartialEq, Eq, Structural)]
pub enum MaterialKind {
    Grass,
    Dirt,
    Stone,
    Water,
    Lava,
    Obsidian,
    Wood,
    Glass,
    Metal,
}

/// A specular exponent above this threshold makes a surface reflective.
pub const REFLECTIVE_SPECULAR: i64 = 50_000_000;

/// How strongly an emissive surface glows: 0.4.
pub const EMISSION_INTENSITY: i64 = 400_000;

/// The factor applied to the glow of an emissive surface: 2.
pub const EMISSION_BOOST: i64 = 2_000_000;

impl MaterialKind {
    /// The share of the base color that a surface shows without any light.
    pub open spec fn spec_ambient_strength(self) -> i64 {
        match self {
            MaterialKind::Grass => 500_000,
            MaterialKind::Stone => 250_000,
            MaterialKind::Dirt => 350_000,
            MaterialKind::Water => 150_000,
            MaterialKind::Lava => 800_000,
            _ => 300_000,
        }
    }

    /// The factor by which a surface answers to direct light.
    pub open spec fn spec_surface_multiplier(self) -> i64 {
        match self {
            MaterialKind::Grass => 1_400_000,
            MaterialKind::Stone => 800_000,
            MaterialKind::Dirt => 1_000_000,
            MaterialKind::Water => 2_000_000,
            MaterialKind::Lava => 300_000,
            _ => 1_000_000,
        }
    }

    /// Water and lava take no part in shadows: nothing is tested for a point
    /// on such a surface.
    pub open spec fn spec_shadow_exempt(self) -> bool {
        self == MaterialKind::Water || self == MaterialKind::Lava
    }

    pub open spec fn spec_is_transparent(self) -> bool {
        self == MaterialKind::Water || self == MaterialKind::Glass
    }

    pub open spec fn spec_is_emissive(self) -> bool {
        self == MaterialKind::Lava
    }

    pub fn ambient_strength(self) -> (k: i64)
        ensures
            k == self.spec_ambient_strength(),
    {
        match self {
            MaterialKind::Grass => 500_000,
            MaterialKind::Stone => 250_000,
            MaterialKind::Dirt => 350_000,
            MaterialKind::Water => 150_000,
            MaterialKind::Lava => 800_000,
            _ => 300_000,
        }
    }

    pub fn surface_multiplier(self) -> (k: i64)
        ensures
            k == self.spec_surface_multiplier(),
    {
        match self {
            MaterialKind::Grass => 1_400_000,
            MaterialKind::Stone => 800_000,
            MaterialKind::Dirt => 1_000_000,
            MaterialKind::Water => 2_000_000,
            MaterialKind::Lava => 300_000,
            _ => 1_000_000,
        }
    }

    pub fn shadow_exempt(self) -> (b: bool)
        ensures
            b == self.spec_shadow_exempt(),
    {
        match self {
            MaterialKind::Water => true,
            MaterialKind::Lava => true,
            _ => false,
        }
    }
}

/// What a surface is made of.
#[derive(Clone, Copy, Debug, PartialEq, Eq, Structural)]
pub struct Material {
    /// The base color.
    pub diffuse: Color,
    /// The specular exponent.
    pub specular: i64,
    /// The weight of the diffuse part.
    pub albedo_diffuse: i64,
    /// The weight of the specular or transmitted part.
    pub albedo_transmission: i64,
    /// The index of refraction; read for a transparent surface only.
    pub refractive_index: i64,
    /// Whether the base color comes from a texture.
    pub has_texture: bool,
    pub kind: MaterialKind,
}

impl Material {
    /// A surface is reflective where its specular exponent exceeds 50, and
    /// where it is water or metal.
    pub open spec fn spec_is_reflective(self) -> bool {
        self.specular > REFLECTIVE_SPECULAR || self.kind == MaterialKind::Water || self.kind
            == MaterialKind::Metal
    }

    pub open spec fn spec_is_transparent(self) -> bool {
        self.kind.spec_is_transparent()
    }

    pub open spec fn spec_is_emissive(self) -> bool {
        self.kind.spec_is_emissive()
    }

    /// The tint of the glow: that of lava for lava, black for every other kind.
    pub open spec fn spec_emission_color(self) -> Color {
        if self.kind == MaterialKind::Lava {
            Color { r: 255, g: 100, b: 20 }
        } else {
            Color { r: 0, g: 0, b: 0 }
        }
    }

    /// The strength of the glow: 0.4 for lava, nothing for every other kind.
    pub open spec fn spec_emission_intensity(self) -> i64 {
        if self.kind == MaterialKind::Lava {
            EMISSION_INTENSITY
        } else {
            0
        }
    }

    pub fn new(
        kind: MaterialKind,
        diffuse: Color,
        specular: i64,
        albedo_diffuse: i64,
        albedo_transmission: i64,
        refractive_index: i64,
        has_texture: bool,
    ) -> (m: Material)
        ensures
            m == (Material {
                diffuse,
                specular,
                albedo_diffuse,
                albedo_transmission,
                refractive_index,
                has_texture,
                kind,
            }),
    {
        Material {
            diffuse,
            specular,
            albedo_diffuse,
            albedo_transmission,
            refractive_index,
            has_texture,
            kind,
        }
    }

    pub fn is_reflective(&self) -> (b: bool)
        ensures
            b == self.spec_is_reflective(),
    {
        self.specular > REFLECTIVE_SPECULAR || self.kind == MaterialKind::Water || self.kind
            == MaterialKind::Metal
    }

    pub fn is_transparent(&self) -> (b: bool)
        ensures
            b == self.spec_is_transparent(),
    {
        self.kind == MaterialKind::Water || self.kind == MaterialKind::Glass
    }

    pub fn is_emissive(&self) -> (b: bool)
        ensures
            b == self.spec_is_emissive(),
    {
        self.kind == MaterialKind::Lava
    }

    pub fn emission_color(&self) -> (c: Color)
        ensures
            c == self.spec_emission_color(),
    {
        if self.kind == MaterialKind::Lava {
            Color { r: 255, g: 100, b: 20 }
        } else {
            Color { r: 0, g: 0, b: 0 }
        }
    }

    pub fn emission_intensity(&self) -> (k: i64)
        ensures
            k == self.spec_emission_intensity(),
    {
        if self.kind == MaterialKind::Lava {
            EMISSION_INTENSITY
        } else {
            0
        }
    }
}

/// The materials of the catalog.
#[derive(Clone, Copy, Debug, PartialEq, Eq, Structural)]
pub enum Surface {
    GrassTop,
    DirtLayer,
    StoneLayer,
    StoneWall,
    CenterBlock,
    WaterSurface,
    LavaSurface,
    ObsidianBlock,
}

impl Surface {
    /// The material of an entry of the catalog.
    pub open spec fn spec_material(self) -> Material {
        match self {
            Surface::GrassTop => Material {
                diffuse: Color { r: 86, g: 172, b: 62 },
                specular: 10_000_000,
                albedo_diffuse: 900_000,
                albedo_transmission: 100_000,
                refractive_index: 1_000_000,
                has_texture: true,
                kind: MaterialKind::Grass,
            },
            Surface::DirtLayer => Material {
                diffuse: Color { r: 134, g: 96, b: 67 },
                specular: 5_000_000,
                albedo_diffuse: 900_000,
                albedo_transmission: 50_000,
                refractive_index: 1_000_000,
                has_texture: true,
                kind: MaterialKind::Dirt,
            },
            Surface::StoneLayer => Material {
                diffuse: Color { r: 128, g: 128, b: 128 },
                specular: 20_000_000,
                albedo_diffuse: 800_000,
                albedo_transmission: 200_000,
                refractive_index: 1_000_000,
                has_texture: true,
                kind: MaterialKind::Stone,
            },
            Surface::StoneWall => Material {
                diffuse: Color { r: 110, g: 110, b: 115 },
                specular: 15_000_000,
                albedo_diffuse: 800_000,
                albedo_transmission: 150_000,
                refractive_index: 1_000_000,
                has_texture: false,
                kind: MaterialKind::Stone,
            },
            Surface::CenterBlock => Material {
                diffuse: Color { r: 180, g: 140, b: 100 },
                specular: 30_000_000,
                albedo_diffuse: 800_000,
                albedo_transmission: 200_000,
                refractive_index: 1_000_000,
                has_texture: true,
                kind: MaterialKind::Wood,
            },
            Surface::WaterSurface => Material {
                diffuse: Color { r: 40, g: 120, b: 200 },
                specular: 80_000_000,
                albedo_diffuse: 300_000,
                albedo_transmission: 700_000,
                refractive_index: 1_330_000,
                has_texture: true,
                kind: MaterialKind::Water,
            },
            Surface::LavaSurface => Material {
                diffuse: Color { r: 255, g: 90, b: 20 },
                specular: 5_000_000,
                albedo_diffuse: 1_000_000,
                albedo_transmission: 0,
                refractive_index: 1_000_000,
                has_texture: true,
                kind: MaterialKind::Lava,
            },
            Surface::ObsidianBlock => Material {
                diffuse: Color { r: 30, g: 20, b: 45 },
                specular: 90_000_000,
                albedo_diffuse: 600_000,
                albedo_transmission: 400_000,
                refractive_index: 1_500_000,
                has_texture: true,
                kind: MaterialKind::Obsidian,
            },
        }
    }

    pub fn material(self) -> (m: Material)
        ensures
            m == self.spec_material(),
    {
        match self {
            Surface::GrassTop => Material {
                diffuse: Color { r: 86, g: 172, b: 62 },
                specular: 10_000_000,
                albedo_diffuse: 900_000,
                albedo_transmission: 100_000,
                refractive_index: 1_000_000,
                has_texture: true,
                kind: MaterialKind::Grass,
            },
            Surface::DirtLayer => Material {
                diffuse: Color { r: 134, g: 96, b: 67 },
                specular: 5_000_000,
                albedo_diffuse: 900_000,
                albedo_transmission: 50_000,
                refractive_index: 1_000_000,
                has_texture: true,
                kind: MaterialKind::Dirt,
            },
            Surface::StoneLayer => Material {
                diffuse: Color { r: 128, g: 128, b: 128 },
                specular: 20_000_000,
                albedo_diffuse: 800_000,
                albedo_transmission: 200_000,
                refractive_index: 1_000_000,
                has_texture: true,
                kind: MaterialKind::Stone,
            },
            Surface::StoneWall => Material {
                diffuse: Color { r: 110, g: 110, b: 115 },
                specular: 15_000_000,
                albedo_diffuse: 800_000,
                albedo_transmission: 150_000,
                refractive_index: 1_000_000,
                has_texture: false,
                kind: MaterialKind::Stone,
            },
            Surface::CenterBlock => Material {
                diffuse: Color { r: 180, g: 140, b: 100 },
                specular: 30_000_000,
                albedo_diffuse: 800_000,
                albedo_transmission: 200_000,
                refractive_index: 1_000_000,
                has_texture: true,
                kind: MaterialKind::Wood,
            },
            Surface::WaterSurface => Material {
                diffuse: Color { r: 40, g: 120, b: 200 },
                specular: 80_000_000,
                albedo_diffuse: 300_000,
                albedo_transmission: 700_000,
                refractive_index: 1_330_000,
                has_texture: true,
                kind: MaterialKind::Water,
            },
            Surface::LavaSurface => Material {
                diffuse: Color { r: 255, g: 90, b: 20 },
                specular: 5_000_000,
                albedo_diffuse: 1_000_000,
                albedo_transmission: 0,
                refractive_index: 1_000_000,
                has_texture: true,
                kind: MaterialKind::Lava,
            },
            Surface::ObsidianBlock => Material {
                diffuse: Color { r: 30, g: 20, b: 45 },
                specular: 90_000_000,
                albedo_diffuse: 600_000,
                albedo_transmission: 400_000,
                refractive_index: 1_500_000,
                has_texture: true,
                kind: MaterialKind::Obsidian,
            },
        }
    }
}

impl Material {
    pub fn grass_top() -> (m: Material)
        ensures
            m == Surface::GrassTop.spec_material(),
    {
        Surface::GrassTop.material()
    }

    pub fn dirt_layer() -> (m: Material)
        ensures
            m == Surface::DirtLayer.spec_material(),
    {
        Surface::DirtLayer.material()
    }

    pub fn stone_layer() -> (m: Material)
        ensures
            m == Surface::StoneLayer.spec_material(),
    {
        Surface::StoneLayer.material()
    }

    pub fn stone_wall() -> (m: Material)
        ensures
            m == Surface::StoneWall.spec_material(),
    {
        Surface::StoneWall.material()
    }

    pub fn center_block() -> (m: Material)
        ensures
            m == Surface::CenterBlock.spec_material(),
    {
        Surface::CenterBlock.material()
    }

    pub fn water_surface() -> (m: Material)
        ensures
            m == Surface::WaterSurface.spec_material(),
    {
        Surface::WaterSurface.material()
    }

    pub fn lava_surface() -> (m: Material)
        ensures
            m == Surface::LavaSurface.spec_material(),
    {
        Surface::LavaSurface.material()
    }

    pub fn obsidian_block() -> (m: Material)
        ensures
            m == Surface::ObsidianBlock.spec_material(),
    {
        Surface::ObsidianBlock.material()
    }
}

} // verus!
