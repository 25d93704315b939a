//! Surface materials.

use vstd::prelude::*;

use crate::binary64::{ONE, ZERO};
use crate::vector::{vzero, Vector};

verus! {

/// `0.1`
pub const MIRROR_ABSORBANCE: u64 = 0x3FB9_9999_9999_999A;

/// `0.3`
pub const MATTE_ABSORBANCE: u64 = 0x3FD3_3333_3333_3333;

/// The material of a surface at a point, with the surface normal there.
/// The scalar fields are binary64 bit patterns.
#[derive(Clone, Copy, Debug)]
pub struct Characteristics {
    pub color: Vector,
    pub normal: Vector,
    pub roughness: u64,
    pub reflectance: u64,
    pub absorbance: u64,
}

impl Characteristics {
    /// Black, smooth, neither reflecting nor absorbing.
    pub fn default() -> (r: Characteristics)
        ensures
            r == (Characteristics {
                color: vzero(),
                normal: vzero(),
                roughness: ZERO,
                reflectance: ZERO,
                absorbance: ZERO,
            }),
    {
        Characteristics {
            color: Vector::zero(),
            normal: Vector::zero(),
            roughness: ZERO,
            reflectance: ZERO,
            absorbance: ZERO,
        }
    }

    /// A smooth, fully reflecting surface of the given colour absorbing `0.1`.
    pub fn mirror(color: Vector) -> (r: Characteristics)
        ensures
            r == (Characteristics {
                color,
                normal: vzero(),
                roughness: ZERO,
                reflectance: ONE,
                absorbance: MIRROR_ABSORBANCE,
            }),
    {
        Characteristics {
            color,
            normal: Vector::zero(),
            roughness: ZERO,
            reflectance: ONE,
            absorbance: MIRROR_ABSORBANCE,
        }
    }

    /// A rough, non-reflecting surface of the given colour absorbing `0.3`.
    pub fn matte(color: Vector) -> (r: Characteristics)
        ensures
            r == (Characteristics {
                color,
                normal: vzero(),
                roughness: ONE,
                reflectance: ZERO,
                absorbance: MATTE_ABSORBANCE,
            }),
    {
        Characteristics {
            color,
            normal: Vector::zero(),
            roughness: ONE,
            reflectance: ZERO,
            absorbance: MATTE_ABSORBANCE,
        }
    }
}

} // verus!
