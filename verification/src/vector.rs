//! Three-component vectors of binary64 numbers and their arithmetic.

use vstd::prelude::*;

use crate::binary64::{
    binary64_difference, binary64_product, binary64_quotient, binary64_square_root, binary64_sum,
    difference, equal, product, quotient, square_root, sum, ONE, ZERO,
};

verus! {

/// A point or direction in space; each component is a binary64 bit pattern.
#[derive(Clone, Copy, Debug)]
pub struct Vector {
    pub x: u64,
    pub y: u64,
    pub z: u64,
}

/// `(0, 0, 0)`.
pub open spec fn vzero() -> Vector {
    Vector { x: ZERO, y: ZERO, z: ZERO }
}

/// Componentwise `a + b`.
pub open spec fn vsum(a: Vector, b: Vector) -> Vector {
    Vector { x: binary64_sum(a.x, b.x), y: binary64_sum(a.y, b.y), z: binary64_sum(a.z, b.z) }
}

/// Componentwise `a - b`.
pub open spec fn vdifference(a: Vector, b: Vector) -> Vector {
    Vector {
        x: binary64_difference(a.x, b.x),
        y: binary64_difference(a.y, b.y),
        z: binary64_difference(a.z, b.z),
    }
}

/// Each component multiplied by the scalar `s` (`v * s`).
pub open spec fn vscaled(v: Vector, s: u64) -> Vector {
    Vector {
        x: binary64_product(v.x, s),
        y: binary64_product(v.y, s),
        z: binary64_product(v.z, s),
    }
}

/// Each component divided by the scalar `s` (`v / s`).
pub open spec fn vdivided(v: Vector, s: u64) -> Vector {
    Vector {
        x: binary64_quotient(v.x, s),
        y: binary64_quotient(v.y, s),
        z: binary64_quotient(v.z, s),
    }
}

/// Componentwise `a * b`.
pub open spec fn vproduct(a: Vector, b: Vector) -> Vector {
    Vector {
        x: binary64_product(a.x, b.x),
        y: binary64_product(a.y, b.y),
        z: binary64_product(a.z, b.z),
    }
}

/// `a * (1 - t) + b * t`: `a` at `t = 0`, `b` at `t = 1`.
pub open spec fn vinterpolated(a: Vector, b: Vector, t: u64) -> Vector {
    vsum(vscaled(a, binary64_difference(ONE, t)), vscaled(b, t))
}

/// The dot product, summed from `x` to `z`: `(ax*bx + ay*by) + az*bz`.
pub open spec fn vdot(a: Vector, b: Vector) -> u64 {
    binary64_sum(
        binary64_sum(binary64_product(a.x, b.x), binary64_product(a.y, b.y)),
        binary64_product(a.z, b.z),
    )
}

/// The length, the square root of the dot product with itself.
pub open spec fn vlength(v: Vector) -> u64 {
    binary64_square_root(vdot(v, v))
}

/// The vector divided by its length.
pub open spec fn vnormalized(v: Vector) -> Vector {
    vdivided(v, vlength(v))
}

/// The cross product `a x b`.
pub open spec fn vcross(a: Vector, b: Vector) -> Vector {
    Vector {
        x: binary64_difference(binary64_product(a.y, b.z), binary64_product(a.z, b.y)),
        y: binary64_difference(binary64_product(a.z, b.x), binary64_product(a.x, b.z)),
        z: binary64_difference(binary64_product(a.x, b.y), binary64_product(a.y, b.x)),
    }
}

/// IEEE equality of all three components (as `==` on vectors of `f64`).
pub open spec fn vequal(a: Vector, b: Vector) -> bool {
    equal(a.x, b.x) && equal(a.y, b.y) && equal(a.z, b.z)
}

/// The coordinates moved round one place: `(x, y, z)` becomes `(y, z, x)`.
pub open spec fn rotated(v: Vector) -> Vector {
    Vector { x: v.y, y: v.z, z: v.x }
}

/// The cross product treats the three axes alike: rotating the coordinates
/// of both operands rotates the product the same way (so the sign pattern of
/// every component is the right-handed `a_{k+1} b_{k+2} - a_{k+2} b_{k+1}`).
pub proof fn lemma_cross_rotation(a: Vector, b: Vector)
    ensures
        vcross(rotated(a), rotated(b)) == rotated(vcross(a, b)),
        vcross(rotated(rotated(a)), rotated(rotated(b))) == rotated(rotated(vcross(a, b))),
{
}

/// The first component of `a x b` is `a.y b.z - a.z b.y`, whatever `a.x`
/// and `b.x` are; by the rotation law the same holds of every component.
pub proof fn lemma_cross_component(a: Vector, b: Vector)
    ensures
        vcross(a, b).x == binary64_difference(binary64_product(a.y, b.z), binary64_product(a.z, b.y)),
        vcross(a, b).z == vcross(rotated(rotated(a)), rotated(rotated(b))).x,
{
}

impl Vector {
    /// A vector from its components.
    pub fn new(x: u64, y: u64, z: u64) -> (r: Vector)
        ensures
            r == (Vector { x, y, z }),
    {
        Vector { x, y, z }
    }

    /// `(0, 0, 0)`.
    pub fn zero() -> (r: Vector)
        ensures
            r == vzero(),
    {
        Vector { x: ZERO, y: ZERO, z: ZERO }
    }

    /// `(1, 1, 1)`.
    pub fn one() -> (r: Vector)
        ensures
            r == (Vector { x: ONE, y: ONE, z: ONE }),
    {
        Vector { x: ONE, y: ONE, z: ONE }
    }

    /// `self + other`.
    pub fn add(self, other: Vector) -> (r: Vector)
        ensures
            r == vsum(self, other),
    {
        Vector { x: sum(self.x, other.x), y: sum(self.y, other.y), z: sum(self.z, other.z) }
    }

    /// `self - other`.
    pub fn sub(self, other: Vector) -> (r: Vector)
        ensures
            r == vdifference(self, other),
    {
        Vector {
            x: difference(self.x, other.x),
            y: difference(self.y, other.y),
            z: difference(self.z, other.z),
        }
    }

    /// `self * s`.
    pub fn scale(self, s: u64) -> (r: Vector)
        ensures
            r == vscaled(self, s),
    {
        Vector { x: product(self.x, s), y: product(self.y, s), z: product(self.z, s) }
    }

    /// `self / s`.
    pub fn divide(self, s: u64) -> (r: Vector)
        ensures
            r == vdivided(self, s),
    {
        Vector { x: quotient(self.x, s), y: quotient(self.y, s), z: quotient(self.z, s) }
    }

    /// Componentwise `self * other`.
    pub fn mul(self, other: Vector) -> (r: Vector)
        ensures
            r == vproduct(self, other),
    {
        Vector { x: product(self.x, other.x), y: product(self.y, other.y), z: product(self.z, other.z) }
    }

    /// `a * (1 - t) + b * t`.
    pub fn interpolate(a: Vector, b: Vector, t: u64) -> (r: Vector)
        ensures
            r == vinterpolated(a, b, t),
    {
        a.scale(difference(ONE, t)).add(b.scale(t))
    }

    /// The dot product.
    pub fn dot(self, other: Vector) -> (r: u64)
        ensures
            r == vdot(self, other),
    {
        let xx = product(self.x, other.x);
        let yy = product(self.y, other.y);
        let zz = product(self.z, other.z);
        sum(sum(xx, yy), zz)
    }

    /// The squared length, the dot product with itself.
    pub fn length_squared(self) -> (r: u64)
        ensures
            r == vdot(self, self),
    {
        self.dot(self)
    }

    /// The cross product `self x other`.
    pub fn cross(self, other: Vector) -> (r: Vector)
        ensures
            r == vcross(self, other),
    {
        Vector {
            x: difference(product(self.y, other.z), product(self.z, other.y)),
            y: difference(product(self.z, other.x), product(self.x, other.z)),
            z: difference(product(self.x, other.y), product(self.y, other.x)),
        }
    }

    /// The length.
    pub fn length(self) -> (r: u64)
        ensures
            r == vlength(self),
    {
        square_root(self.length_squared())
    }

    /// The vector divided by its length.
    pub fn normalize(self) -> (r: Vector)
        ensures
            r == vnormalized(self),
    {
        self.divide(self.length())
    }

    /// IEEE equality of all three components.
    pub fn same(self, other: Vector) -> (r: bool)
        ensures
            r == vequal(self, other),
    {
        crate::binary64::eq(self.x, other.x) && crate::binary64::eq(self.y, other.y)
            && crate::binary64::eq(self.z, other.z)
    }
}

} // verus!
