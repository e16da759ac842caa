//! Colors with three channels of eight bits.

use vstd::prelude::*;
use crate::fixed::ONE;
use crate::vector::Vec3;

verus! {

/// A color; equality compares the three channels.
#[derive(Clone, Copy, Debug, PartialEq, Eq, Structural)]
pub struct Color {
    pub r: u8,
    pub g: u8,
    pub b: u8,
}

/// The channel that a scalar intensity turns into: its whole part, held
/// between 0 and 255.
pub open spec fn channel_of(v: i64) -> u8 {
    if v <= 0 {
        0
    } else if v >= 255 * ONE {
        255
    } else {
        (v / ONE) as u8
    }
}

/// The scalar that stands for a channel value.
pub open spec fn scalar_of(c: u8) -> i64 {
    (c * ONE) as i64
}

/// The sum of two channels, held at 255.
pub open spec fn channel_sum(a: u8, b: u8) -> u8 {
    if a + b > 255 {
        255
    } else {
        (a + b) as u8
    }
}

fn add_channels(a: u8, b: u8) -> (c: u8)
    ensures
        c == channel_sum(a, b),
{
    if a > 255 - b {
        255
    } else {
        a + b
    }
}

/// Turns a scalar intensity into a channel: truncates it and saturates at 0 and 255.
pub fn to_channel(v: i64) -> (c: u8)
    ensures
        c == channel_of(v),
{
    if v <= 0 {
        0
    } else if v >= 255_000_000 {
        255
    } else {
        (v / 1_000_000) as u8
    }
}

/// Turns a channel into the scalar of the same value.
pub fn to_scalar(c: u8) -> (v: i64)
    ensures
        v == scalar_of(c),
{
    (c as i64) * 1_000_000
}

impl Color {
    pub open spec fn spec_to_vec3(self) -> Vec3 {
        Vec3 { x: scalar_of(self.r), y: scalar_of(self.g), z: scalar_of(self.b) }
    }

    pub open spec fn spec_from_vec3(v: Vec3) -> Color {
        Color { r: channel_of(v.x), g: channel_of(v.y), b: channel_of(v.z) }
    }

    pub fn new(r: u8, g: u8, b: u8) -> (c: Color)
        ensures
            c == (Color { r, g, b }),
    {
        Color { r, g, b }
    }

    pub fn black() -> (c: Color)
        ensures
            c == (Color { r: 0, g: 0, b: 0 }),
    {
        Color { r: 0, g: 0, b: 0 }
    }

    /// The channels as scalars.
    pub fn to_vec3(&self) -> (v: Vec3)
        ensures
            v == self.spec_to_vec3(),
    {
        Vec3 { x: to_scalar(self.r), y: to_scalar(self.g), z: to_scalar(self.b) }
    }

    /// The color of three scalar intensities, each truncated and saturated.
    pub fn from_vec3(v: Vec3) -> (c: Color)
        ensures
            c == Color::spec_from_vec3(v),
    {
        Color { r: to_channel(v.x), g: to_channel(v.y), b: to_channel(v.z) }
    }

    /// Holds every channel within 0 and 255, which a channel of eight bits
    /// always is: the color comes back unchanged.
    pub fn clamp(self) -> (c: Color)
        ensures
            c == self,
    {
        self
    }

    /// The sum of two colors, each channel held at 255.
    pub open spec fn spec_plus(self, o: Color) -> Color {
        Color {
            r: channel_sum(self.r, o.r),
            g: channel_sum(self.g, o.g),
            b: channel_sum(self.b, o.b),
        }
    }

    /// Adds two colors, channel by channel, and holds each channel at 255.
    pub fn plus(&self, o: &Color) -> (c: Color)
        ensures
            c == self.spec_plus(*o),
    {
        Color {
            r: add_channels(self.r, o.r),
            g: add_channels(self.g, o.g),
            b: add_channels(self.b, o.b),
        }
    }

    /// The packed form `0x00RRGGBB`.
    pub open spec fn spec_to_hex(self) -> u32 {
        (self.r * 65536 + self.g * 256 + self.b) as u32
    }

    pub fn to_hex(&self) -> (h: u32)
        ensures
            h == self.spec_to_hex(),
    {
        (self.r as u32) * 65536 + (self.g as u32) * 256 + (self.b as u32)
    }
}

} // verus!
