//! The pinhole camera of the scene renderer: where each pixel looks.

use vstd::prelude::*;

use crate::binary64::{
    binary64_difference, binary64_from_integer, binary64_quotient, binary64_sum, difference,
    from_integer, negation_of, neg, quotient, sum, ONE, TWO, ZERO,
};
use crate::vector::{vcross, vdifference, vnormalized, vscaled, vsum, Vector};

verus! {

/// The world's up direction.
pub open spec fn world_up() -> Vector {
    Vector { x: ZERO, y: ONE, z: ZERO }
}

/// A camera at `start` looking along a forward direction: the point one
/// forward step ahead, and the unit vectors to the right and up in the
/// image plane.
#[derive(Clone, Copy, Debug)]
pub struct Camera {
    pub start: Vector,
    pub target: Vector,
    pub right: Vector,
    pub up: Vector,
}

impl Camera {
    /// The camera at `start` looking along `forward`: `right` is
    /// `up x forward` normalized and `up` is `forward x right` normalized.
    pub fn new(start: Vector, forward: Vector) -> (c: Camera)
        ensures
            c.start == start,
            c.target == vsum(start, forward),
            c.right == vnormalized(vcross(world_up(), forward)),
            c.up == vnormalized(vcross(forward, c.right)),
    {
        let world = Vector::new(ZERO, ONE, ZERO);
        let right = world.cross(forward).normalize();
        let up = forward.cross(right).normalize();
        Camera { start, target: start.add(forward), right, up }
    }

    /// The unit direction from the camera through the image-plane point
    /// `scene_x` to the right and `scene_y` up of the target.
    pub fn direction(&self, scene_x: u64, scene_y: u64) -> (r: Vector)
        ensures
            r == vnormalized(
                vdifference(
                    vsum(vsum(self.target, vscaled(self.right, scene_x)), vscaled(self.up, scene_y)),
                    self.start,
                ),
            ),
    {
        let target = self.target.add(self.right.scale(scene_x)).add(self.up.scale(scene_y));
        target.sub(self.start).normalize()
    }
}

/// The horizontal image-plane coordinate of column `x` of an image `width`
/// pixels wide, offset by `jitter`: `(x - width / 2) / width + jitter`.
pub open spec fn scene_x_of(x: u64, width: u64, jitter: u64) -> u64 {
    let w = binary64_from_integer(width);
    binary64_sum(
        binary64_quotient(binary64_difference(binary64_from_integer(x), binary64_quotient(w, TWO)), w),
        jitter,
    )
}

/// The vertical image-plane coordinate of row `y` (rows run downwards) of an
/// image `width` by `height` pixels, offset by `jitter`:
/// `-(y - height / 2) / width + jitter`.
pub open spec fn scene_y_of(y: u64, width: u64, height: u64, jitter: u64) -> u64 {
    binary64_sum(
        binary64_quotient(
            negation_of(
                binary64_difference(
                    binary64_from_integer(y),
                    binary64_quotient(binary64_from_integer(height), TWO),
                ),
            ),
            binary64_from_integer(width),
        ),
        jitter,
    )
}

/// Computes `scene_x_of`.
pub fn scene_x(x: u64, width: u64, jitter: u64) -> (r: u64)
    ensures
        r == scene_x_of(x, width, jitter),
{
    let w = from_integer(width);
    sum(quotient(difference(from_integer(x), quotient(w, TWO)), w), jitter)
}

/// Computes `scene_y_of`.
pub fn scene_y(y: u64, width: u64, height: u64, jitter: u64) -> (r: u64)
    ensures
        r == scene_y_of(y, width, height, jitter),
{
    let half_height = quotient(from_integer(height), TWO);
    sum(quotient(neg(difference(from_integer(y), half_height)), from_integer(width)), jitter)
}

} // verus!
