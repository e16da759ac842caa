//! Point lights.

use vstd::prelude::*;
use crate::color::Color;
use crate::vector::Vec3;

verus! {

#[derive(Clone, Copy, Debug, PartialEq, Eq, Structural)]
pub struct Light {
    pub position: Vec3,
    pub color: Color,
    pub intensity: i64,
}

impl Light {
    pub fn new(position: Vec3, color: Color, intensity: i64) -> (l: Light)
        ensures
            l == (Light { position, color, intensity }),
    {
        Light { position, color, intensity }
    }
}

} // verus!
