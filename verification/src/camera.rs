//! The camera: an eye that looks at a target, and the rays it sends
//! through the screen.

use vstd::prelude::*;
use crate::vector::Vec3;

verus! {

/// A camera at `eye` that looks at `target`, with `up` for the vertical.
#[derive(Clone, Copy, Debug, PartialEq, Eq, Structural)]
pub struct Camera {
    pub eye: Vec3,
    pub target: Vec3,
    pub up: Vec3,
}

impl Camera {
    /// The unit vector from the eye to the target.
    pub open spec fn spec_forward(self) -> Vec3 {
        self.target.spec_minus(self.eye).spec_direction()
    }

    /// The unit vector to the right of the view.
    pub open spec fn spec_right(self) -> Vec3 {
        self.spec_forward().spec_cross(self.up).spec_direction()
    }

    /// The direction of the ray through the point `(x, y)` of the screen,
    /// which spans from -1 to 1 upward, and as far sideways as it is wide:
    /// forward, plus `x` to the right, plus `y` up, at unit length.
    pub open spec fn spec_get_ray_direction(self, screen_x: i64, screen_y: i64) -> Vec3 {
        let forward = self.spec_forward();
        let right = self.spec_right();
        let above = right.spec_cross(forward);
        forward.spec_plus(right.spec_scale(screen_x)).spec_plus(
            above.spec_scale(screen_y),
        ).spec_direction()
    }

    pub fn new(eye: Vec3, target: Vec3, up: Vec3) -> (c: Camera)
        ensures
            c == (Camera { eye, target, up }),
    {
        Camera { eye, target, up }
    }

    pub fn get_ray_direction(&self, screen_x: i64, screen_y: i64) -> (dir: Vec3)
        ensures
            dir == self.spec_get_ray_direction(screen_x, screen_y),
    {
        let forward = self.target.minus(&self.eye).direction();
        let right = forward.cross(&self.up).direction();
        let above = right.cross(&forward);
        forward.plus(&right.scale(screen_x)).plus(&above.scale(screen_y)).direction()
    }
}

} // verus!
