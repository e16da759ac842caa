//! Textures: rows of texels with three bytes each, and the procedural
//! patterns that fill them.

use vstd::prelude::*;
use crate::color::Color;
use crate::fixed::ONE;

verus! {

/// An image of `width` by `height` texels; `data` holds them row by row,
/// three bytes for each: red, green, blue.
#[derive(Clone, Debug)]
pub struct Texture {
    pub width: u32,
    pub height: u32,
    pub data: Vec<u8>,
}

/// The procedural patterns.
#[derive(Clone, Copy, Debug, PartialEq, Eq, Structural)]
pub enum Pattern {
    Grass,
    Stone,
    Dirt,
    Lava,
    Obsidian,
    Squares,
    SkyTop,
    SkyBottom,
    SkyFront,
    SkyBack,
    SkyLeft,
    SkyRight,
}

/// The color read where a texture has no texel.
pub open spec fn missing_texel() -> Color {
    Color { r: 255, g: 0, b: 255 }
}

/// The sum of two noise terms, cut off at `cap`.
pub open spec fn capped(sum: int, cap: int) -> int {
    if sum > cap {
        cap
    } else {
        sum
    }
}

/// `base + gain * level / full`, cut off at 255: a channel that rises from
/// `base` by `gain` as `level` runs from 0 to `full`.
pub open spec fn ramp(base: int, gain: int, level: int, full: int) -> u8 {
    capped(base + gain * level / full, 255) as u8
}

/// The grass pattern. Its noise is `coarse / 16 + 0.3 * fine / 8`, cut off at
/// 1 and counted here in eightieths.
pub open spec fn grass_color(x: int, y: int) -> Color {
    let coarse = (x * 17 + y * 13) % 16;
    let fine = (x * 7 + y * 11) % 8;
    let level = capped(5 * coarse + 3 * fine, 80);
    Color { r: ramp(25, 35, level, 80), g: ramp(160, 60, level, 80), b: ramp(25, 30, level, 80) }
}

/// The stone pattern. Its noise is `coarse / 32 + 0.4 * fine / 16`, cut off
/// at 1 and counted here in units of 1/160.
pub open spec fn stone_color(x: int, y: int) -> Color {
    let coarse = (x * 23 + y * 19) % 32;
    let fine = (x * 7 + y * 13) % 16;
    let level = capped(5 * coarse + 4 * fine, 160);
    let gray = 70 + 40 * level / 160;
    let variation = 15 * level / 160;
    Color { r: (gray + variation) as u8, g: (gray + variation / 2) as u8, b: gray as u8 }
}

/// The dirt pattern. Its noise is `coarse / 24 + 0.5 * fine / 16`, cut off at
/// 1 and counted here in units of 1/96.
pub open spec fn dirt_color(x: int, y: int) -> Color {
    let coarse = (x * 13 + y * 17) % 24;
    let fine = (x * 29 + y * 7) % 16;
    let level = capped(4 * coarse + 3 * fine, 96);
    Color { r: ramp(140, 50, level, 96), g: ramp(85, 35, level, 96), b: ramp(35, 25, level, 96) }
}

/// The lava pattern. Its heat is `coarse / 32 + 0.6 * fine / 16`, cut off at
/// 1 and counted here in units of 1/160. Heat above 0.7 glows yellow, heat
/// above 0.4 orange, the rest dark red. A heat of 0.7 itself counts as above
/// 0.7 unless its fine part is as low as 2/16, as the sum falls in single
/// precision.
pub open spec fn lava_color(x: int, y: int) -> Color {
    let coarse = (x * 31 + y * 17) % 32;
    let fine = (x * 13 + y * 29) % 16;
    let level = capped(5 * coarse + 6 * fine, 160);
    if level > 112 || (level == 112 && fine > 2) {
        Color { r: 255, g: 255, b: ramp(150, 105, level, 160) }
    } else if level > 64 {
        Color { r: 255, g: ramp(120, 135, level, 160), b: 30 }
    } else {
        Color { r: ramp(180, 75, level, 160), g: 20, b: 0 }
    }
}

/// The obsidian pattern. Its noise is `coarse / 16 + 0.2 * fine / 8`, cut off
/// at 1 and counted here in eightieths; noise above 0.8 carries a stronger
/// purple tint.
pub open spec fn obsidian_color(x: int, y: int) -> Color {
    let coarse = (x * 43 + y * 23) % 16;
    let fine = (x * 17 + y * 31) % 8;
    let level = capped(5 * coarse + 2 * fine, 80);
    let tint: int = if level > 64 {
        20
    } else {
        5
    };
    Color {
        r: ((6000 + 125 * level + 240 * tint) / 400) as u8,
        g: (15 + 25 * level / 80) as u8,
        b: (15 + tint + 25 * level / 80) as u8,
    }
}

/// The board of squares of eight texels, in two blues by turns.
pub open spec fn squares_color(x: int, y: int) -> Color {
    if (x / 8 + y / 8) % 2 == 0 {
        Color { r: 50, g: 100, b: 200 }
    } else {
        Color { r: 200, g: 200, b: 255 }
    }
}

/// The sky overhead: blue with a regular scatter of cloud.
pub open spec fn sky_top_color(x: int, y: int) -> Color {
    if (x * 7 + y * 13) % 64 >= 45 {
        Color { r: 210, g: 220, b: 255 }
    } else {
        Color { r: 150, g: 190, b: 255 }
    }
}

/// The face below: a blue that lightens from the first row to the last.
pub open spec fn sky_bottom_color(x: int, y: int) -> Color {
    Color { r: ramp(80, 50, y, 256), g: ramp(120, 60, y, 256), b: ramp(200, 55, y, 256) }
}

/// The face ahead: a sky that darkens toward the last row, with the disc of
/// the sun, of radius 30, around texel (64, 85).
pub open spec fn sky_front_color(x: int, y: int) -> Color {
    let sun = (x - 64) * (x - 64) + (y - 85) * (y - 85) < 900;
    Color {
        r: ramp(
            if sun {
                180
            } else {
                100
            },
            80,
            256 - y,
            256,
        ),
        g: ramp(
            if sun {
                214
            } else {
                150
            },
            80,
            256 - y,
            256,
        ),
        b: ramp(220, 35, 256 - y, 256),
    }
}

pub open spec fn sky_back_color(x: int, y: int) -> Color {
    Color {
        r: ramp(90, 60, 256 - y, 256),
        g: ramp(140, 70, 256 - y, 256),
        b: ramp(210, 45, 256 - y, 256),
    }
}

pub open spec fn sky_left_color(x: int, y: int) -> Color {
    Color {
        r: ramp(95, 65, 256 - y, 256),
        g: ramp(145, 75, 256 - y, 256),
        b: ramp(215, 40, 256 - y, 256),
    }
}

pub open spec fn sky_right_color(x: int, y: int) -> Color {
    Color {
        r: ramp(105, 55, 256 - y, 256),
        g: ramp(155, 65, 256 - y, 256),
        b: ramp(225, 30, 256 - y, 256),
    }
}

impl Pattern {
    /// The color of the pattern at texel `(x, y)`.
    pub open spec fn spec_color(self, x: int, y: int) -> Color {
        match self {
            Pattern::Grass => grass_color(x, y),
            Pattern::Stone => stone_color(x, y),
            Pattern::Dirt => dirt_color(x, y),
            Pattern::Lava => lava_color(x, y),
            Pattern::Obsidian => obsidian_color(x, y),
            Pattern::Squares => squares_color(x, y),
            Pattern::SkyTop => sky_top_color(x, y),
            Pattern::SkyBottom => sky_bottom_color(x, y),
            Pattern::SkyFront => sky_front_color(x, y),
            Pattern::SkyBack => sky_back_color(x, y),
            Pattern::SkyLeft => sky_left_color(x, y),
            Pattern::SkyRight => sky_right_color(x, y),
        }
    }

    /// The edge, in texels, of the square texture that carries the pattern.
    pub open spec fn spec_size(self) -> u32 {
        match self {
            Pattern::Grass | Pattern::Stone | Pattern::Dirt | Pattern::Lava | Pattern::Obsidian => 32,
            Pattern::Squares => 64,
            _ => 256,
        }
    }

    pub fn size(self) -> (s: u32)
        ensures
            s == self.spec_size(),
    {
        match self {
            Pattern::Grass | Pattern::Stone | Pattern::Dirt | Pattern::Lava | Pattern::Obsidian => 32,
            Pattern::Squares => 64,
            _ => 256,
        }
    }

    /// The color of the pattern at texel `(x, y)` of its texture.
    pub fn color(self, x: u32, y: u32) -> (c: Color)
        requires
            x < self.spec_size(),
            y < self.spec_size(),
        ensures
            c == self.spec_color(x as int, y as int),
    {
        match self {
            Pattern::Grass => {
                let level: u32 = cap(5 * ((x * 17 + y * 13) % 16) + 3 * ((x * 7 + y * 11) % 8), 80);
                Color {
                    r: rise(25, 35, level, 80),
                    g: rise(160, 60, level, 80),
                    b: rise(25, 30, level, 80),
                }
            },
            Pattern::Stone => {
                let level: u32 = cap(5 * ((x * 23 + y * 19) % 32) + 4 * ((x * 7 + y * 13) % 16), 160);
                let gray: u32 = 70 + 40 * level / 160;
                let variation: u32 = 15 * level / 160;
                Color {
                    r: (gray + variation) as u8,
                    g: (gray + variation / 2) as u8,
                    b: gray as u8,
                }
            },
            Pattern::Dirt => {
                let level: u32 = cap(4 * ((x * 13 + y * 17) % 24) + 3 * ((x * 29 + y * 7) % 16), 96);
                Color {
                    r: rise(140, 50, level, 96),
                    g: rise(85, 35, level, 96),
                    b: rise(35, 25, level, 96),
                }
            },
            Pattern::Lava => {
                let fine: u32 = (x * 13 + y * 29) % 16;
                let level: u32 = cap(5 * ((x * 31 + y * 17) % 32) + 6 * fine, 160);
                if level > 112 || (level == 112 && fine > 2) {
                    Color { r: 255, g: 255, b: rise(150, 105, level, 160) }
                } else if level > 64 {
                    Color { r: 255, g: rise(120, 135, level, 160), b: 30 }
                } else {
                    Color { r: rise(180, 75, level, 160), g: 20, b: 0 }
                }
            },
            Pattern::Obsidian => {
                let level: u32 = cap(5 * ((x * 43 + y * 23) % 16) + 2 * ((x * 17 + y * 31) % 8), 80);
                let tint: u32 = if level > 64 {
                    20
                } else {
                    5
                };
                Color {
                    r: ((6000 + 125 * level + 240 * tint) / 400) as u8,
                    g: (15 + 25 * level / 80) as u8,
                    b: (15 + tint + 25 * level / 80) as u8,
                }
            },
            Pattern::Squares => {
                if (x / 8 + y / 8) % 2 == 0 {
                    Color { r: 50, g: 100, b: 200 }
                } else {
                    Color { r: 200, g: 200, b: 255 }
                }
            },
            Pattern::SkyTop => {
                if (x * 7 + y * 13) % 64 >= 45 {
                    Color { r: 210, g: 220, b: 255 }
                } else {
                    Color { r: 150, g: 190, b: 255 }
                }
            },
            Pattern::SkyBottom => Color {
                r: rise(80, 50, y, 256),
                g: rise(120, 60, y, 256),
                b: rise(200, 55, y, 256),
            },
            Pattern::SkyFront => {
                let dx: u32 = if x >= 64 {
                    x - 64
                } else {
                    64 - x
                };
                let dy: u32 = if y >= 85 {
                    y - 85
                } else {
                    85 - y
                };
                assert(dx * dx + dy * dy == (x - 64) * (x - 64) + (y - 85) * (y - 85))
                    by (nonlinear_arith)
                    requires
                        dx == x - 64 || dx == 64 - x,
                        dy == y - 85 || dy == 85 - y,
                ;
                assert(dx * dx <= 65536 && dy * dy <= 65536) by (nonlinear_arith)
                    requires
                        dx <= 256,
                        dy <= 256,
                ;
                let sun: bool = dx * dx + dy * dy < 900;
                Color {
                    r: rise(
                        if sun {
                            180
                        } else {
                            100
                        },
                        80,
                        256 - y,
                        256,
                    ),
                    g: rise(
                        if sun {
                            214
                        } else {
                            150
                        },
                        80,
                        256 - y,
                        256,
                    ),
                    b: rise(220, 35, 256 - y, 256),
                }
            },
            Pattern::SkyBack => Color {
                r: rise(90, 60, 256 - y, 256),
                g: rise(140, 70, 256 - y, 256),
                b: rise(210, 45, 256 - y, 256),
            },
            Pattern::SkyLeft => Color {
                r: rise(95, 65, 256 - y, 256),
                g: rise(145, 75, 256 - y, 256),
                b: rise(215, 40, 256 - y, 256),
            },
            Pattern::SkyRight => Color {
                r: rise(105, 55, 256 - y, 256),
                g: rise(155, 65, 256 - y, 256),
                b: rise(225, 30, 256 - y, 256),
            },
        }
    }
}

/// The three bytes of texel number `j` of `data`, counted row by row, are
/// those of the pattern there.
pub open spec fn texel_shows(data: Seq<u8>, j: int, pattern: Pattern, size: int) -> bool {
    let c = pattern.spec_color(j % size, j / size);
    data[3 * j] == c.r && data[3 * j + 1] == c.g && data[3 * j + 2] == c.b
}

/// The scalar `u` wrapped into the range from 0 up to, not including, 1.
pub open spec fn wrapped(u: i64) -> i64 {
    ((u as int) % (ONE as int)) as i64
}

/// The column or row that the wrapped coordinate `u` falls in, of `n`.
pub open spec fn texel_coordinate(u: i64, n: u32) -> u32 {
    if wrapped(u) * n / (ONE as int) >= n {
        (n - 1) as u32
    } else {
        (wrapped(u) * n / (ONE as int)) as u32
    }
}

impl Texture {
    /// Where the first byte of texel `(x, y)` stands in `data`.
    pub open spec fn texel_index(self, x: int, y: int) -> int {
        (y * self.width + x) * 3
    }

    /// The color of texel `(x, y)`; that of a missing texel where `data`
    /// does not reach that far.
    pub open spec fn spec_texel(self, x: int, y: int) -> Color {
        let i = self.texel_index(x, y);
        if i + 2 < self.data@.len() {
            Color { r: self.data@[i], g: self.data@[i + 1], b: self.data@[i + 2] }
        } else {
            missing_texel()
        }
    }

    /// The texture is a square that carries `pattern`, texel by texel.
    pub open spec fn shows(self, pattern: Pattern) -> bool {
        &&& self.width == pattern.spec_size()
        &&& self.height == pattern.spec_size()
        &&& self.data@.len() == 3 * (pattern.spec_size() * pattern.spec_size())
        &&& forall|x: int, y: int|
            0 <= x < pattern.spec_size() && 0 <= y < pattern.spec_size()
                ==> #[trigger] self.spec_texel(x, y) == pattern.spec_color(x, y)
    }

    /// The color at the surface coordinates `(u, v)`, each wrapped into the
    /// range from 0 to 1.
    pub open spec fn spec_sample(self, u: i64, v: i64) -> Color {
        self.spec_texel(
            texel_coordinate(u, self.width) as int,
            texel_coordinate(v, self.height) as int,
        )
    }

    /// The square texture that carries `pattern`.
    pub fn from_pattern(pattern: Pattern) -> (t: Texture)
        ensures
            t.shows(pattern),
    {
        let size: u32 = pattern.size();
        let count: u32 = size * size;
        let mut data: Vec<u8> = Vec::new();
        let mut j: u32 = 0;
        while j < count
            invariant
                size == pattern.spec_size(),
                count == size * size,
                j <= count,
                data@.len() == 3 * j,
                forall|k: int| 0 <= k < j ==> #[trigger] texel_shows(data@, k, pattern, size as int),
            decreases count - j,
        {
            let x: u32 = j % size;
            let y: u32 = j / size;
            let c = pattern.color(x, y);
            let ghost before = data@;
            data.push(c.r);
            data.push(c.g);
            data.push(c.b);
            proof {
                assert forall|k: int| 0 <= k < j + 1 implies #[trigger] texel_shows(
                    data@,
                    k,
                    pattern,
                    size as int,
                ) by {
                    if k < j {
                        assert(texel_shows(before, k, pattern, size as int));
                    }
                }
            }
            j = j + 1;
        }
        let t = Texture { width: size, height: size, data };
        proof {
            assert forall|x: int, y: int| 0 <= x < size && 0 <= y < size implies #[trigger] t.spec_texel(
                x,
                y,
            ) == pattern.spec_color(x, y) by {
                let k = y * size + x;
                lemma_row_major(x, y, size as int);
                assert(texel_shows(t.data@, k, pattern, size as int));
                assert(t.texel_index(x, y) == 3 * k);
                assert(3 * k + 2 < t.data@.len());
            }
        }
        t
    }

    /// Reads texel `(x, y)`.
    pub fn texel(&self, x: u32, y: u32) -> (c: Color)
        ensures
            c == self.spec_texel(x as int, y as int),
    {
        assert(y * self.width <= 0xffff_ffff * 0xffff_ffff) by (nonlinear_arith)
            requires
                0 <= y <= 0xffff_ffff,
                0 <= self.width <= 0xffff_ffff,
        ;
        let index: u128 = ((y as u128) * (self.width as u128) + (x as u128)) * 3;
        if index + 2 < self.data.len() as u128 {
            let i: usize = index as usize;
            Color { r: self.data[i], g: self.data[i + 1], b: self.data[i + 2] }
        } else {
            Color { r: 255, g: 0, b: 255 }
        }
    }

    /// The color at the surface coordinates `(u, v)`: each is wrapped into
    /// the range from 0 to 1 and picks the column or the row it falls in.
    pub fn sample(&self, u: i64, v: i64) -> (c: Color)
        requires
            self.width > 0,
            self.height > 0,
        ensures
            c == self.spec_sample(u, v),
    {
        let x = pick(u, self.width);
        let y = pick(v, self.height);
        self.texel(x, y)
    }

    pub fn create_grass_texture() -> (t: Texture)
        ensures
            t.shows(Pattern::Grass),
    {
        Texture::from_pattern(Pattern::Grass)
    }

    pub fn create_stone_texture() -> (t: Texture)
        ensures
            t.shows(Pattern::Stone),
    {
        Texture::from_pattern(Pattern::Stone)
    }

    pub fn create_dirt_texture() -> (t: Texture)
        ensures
            t.shows(Pattern::Dirt),
    {
        Texture::from_pattern(Pattern::Dirt)
    }

    pub fn create_lava_texture() -> (t: Texture)
        ensures
            t.shows(Pattern::Lava),
    {
        Texture::from_pattern(Pattern::Lava)
    }

    pub fn create_obsidian_texture() -> (t: Texture)
        ensures
            t.shows(Pattern::Obsidian),
    {
        Texture::from_pattern(Pattern::Obsidian)
    }

    pub fn create_special_texture() -> (t: Texture)
        ensures
            t.shows(Pattern::Squares),
    {
        Texture::from_pattern(Pattern::Squares)
    }
}

/// Texel `(x, y)` of a row of `size` is texel number `y * size + x`.
proof fn lemma_row_major(x: int, y: int, size: int)
    requires
        0 <= x < size,
        0 <= y < size,
    ensures
        0 <= y * size + x < size * size,
        (y * size + x) % size == x,
        (y * size + x) / size == y,
{
    vstd::arithmetic::div_mod::lemma_fundamental_div_mod_converse(y * size + x, size, y, x);
    assert(y * size + x < size * size) by (nonlinear_arith)
        requires
            0 <= x < size,
            0 <= y < size,
    ;
    assert(0 <= y * size) by (nonlinear_arith)
        requires
            0 <= y,
            0 <= size,
    ;
}

fn pick(u: i64, n: u32) -> (r: u32)
    requires
        n > 0,
    ensures
        r == texel_coordinate(u, n),
        r < n,
{
    let w: i64 = if u >= 0 {
        u % 1_000_000
    } else {
        999_999 - (-(u + 1)) % 1_000_000
    };
    assert(w == wrapped(u)) by {
        if u < 0 {
            let m = -(u + 1);
            vstd::arithmetic::div_mod::lemma_fundamental_div_mod(m as int, 1_000_000);
            vstd::arithmetic::div_mod::lemma_fundamental_div_mod_converse(
                u as int,
                1_000_000,
                -(m / 1_000_000) - 1,
                999_999 - m % 1_000_000,
            );
        }
    }
    assert(w * n <= 999_999 * 0xffff_ffff) by (nonlinear_arith)
        requires
            0 <= w <= 999_999,
            0 <= n <= 0xffff_ffff,
    ;
    let p: i64 = w * (n as i64) / 1_000_000;
    if p >= n as i64 {
        n - 1
    } else {
        p as u32
    }
}

fn cap(sum: u32, limit: u32) -> (r: u32)
    ensures
        r == capped(sum as int, limit as int),
{
    if sum > limit {
        limit
    } else {
        sum
    }
}

fn rise(base: u32, gain: u32, level: u32, full: u32) -> (r: u8)
    requires
        base <= 255,
        gain <= 255,
        level <= 256,
        full > 0,
    ensures
        r == ramp(base as int, gain as int, level as int, full as int),
{
    assert(gain * level <= 255 * 256) by (nonlinear_arith)
        requires
            gain <= 255,
            level <= 256,
    ;
    let v: u32 = base + gain * level / full;
    if v > 255 {
        255
    } else {
        v as u8
    }
}

} // verus!
