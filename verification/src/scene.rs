//! Scenes: a distance field built from shapes with `!` (negation), `+`
//! (union) and `*` (intersection), and the steps of a path traced through one.

use vstd::prelude::*;

use crate::binary64::{binary64_difference, difference, less, lt, INFINITY, ONE, TWO, ZERO};
use crate::distance_field::{Field, Intersection, Negate, Union};
use crate::vector::{vdifference, vdot, vinterpolated, vnormalized, vproduct, vscaled, vsum, Vector};

verus! {

/// A scene, the distance field of everything in it.
pub struct Scene<T: Field> {
    pub field: T,
}

impl<T: Field> core::ops::Not for Scene<T> {
    type Output = Scene<Negate<T>>;

    fn not(self) -> (r: Scene<Negate<T>>) {
        Scene { field: Negate { field: self.field } }
    }
}

impl<T: Field> vstd::std_specs::ops::NotSpecImpl for Scene<T> {
    open spec fn obeys_not_spec() -> bool {
        true
    }

    open spec fn not_req(self) -> bool {
        true
    }

    open spec fn not_spec(self) -> Scene<Negate<T>> {
        Scene { field: Negate { field: self.field } }
    }
}

impl<T1: Field, T2: Field> core::ops::Add<Scene<T2>> for Scene<T1> {
    type Output = Scene<Union<T1, T2>>;

    fn add(self, rhs: Scene<T2>) -> (r: Scene<Union<T1, T2>>) {
        Scene { field: Union { field1: self.field, field2: rhs.field } }
    }
}

impl<T1: Field, T2: Field> vstd::std_specs::ops::AddSpecImpl<Scene<T2>> for Scene<T1> {
    open spec fn obeys_add_spec() -> bool {
        true
    }

    open spec fn add_req(self, rhs: Scene<T2>) -> bool {
        true
    }

    open spec fn add_spec(self, rhs: Scene<T2>) -> Scene<Union<T1, T2>> {
        Scene { field: Union { field1: self.field, field2: rhs.field } }
    }
}

impl<T1: Field, T2: Field> core::ops::Mul<Scene<T2>> for Scene<T1> {
    type Output = Scene<Intersection<T1, T2>>;

    fn mul(self, rhs: Scene<T2>) -> (r: Scene<Intersection<T1, T2>>) {
        Scene { field: Intersection { field1: self.field, field2: rhs.field } }
    }
}

impl<T1: Field, T2: Field> vstd::std_specs::ops::MulSpecImpl<Scene<T2>> for Scene<T1> {
    open spec fn obeys_mul_spec() -> bool {
        true
    }

    open spec fn mul_req(self, rhs: Scene<T2>) -> bool {
        true
    }

    open spec fn mul_spec(self, rhs: Scene<T2>) -> Scene<Intersection<T1, T2>> {
        Scene { field: Intersection { field1: self.field, field2: rhs.field } }
    }
}

/// `0.001`: how far off a surface along its normal a bounced path restarts.
pub const MINIMUM_THRESHOLD: u64 = 0x3F50_624D_D2F1_A9FC;

/// The point where the ray from `pos` along `dir` meets the field: at the
/// ray distance along the ray, when that distance is positive and finite.
pub open spec fn cast<T: Field>(field: T, pos: Vector, dir: Vector) -> Option<Vector> {
    let d = field.ray_distance(pos, dir);
    if less(ZERO, d) && less(d, INFINITY) {
        Some(vsum(pos, vscaled(dir, d)))
    } else {
        None
    }
}

/// `direction` mirrored in the plane with normal `normal`:
/// `direction - 2 normal (normal . direction)`.
pub open spec fn reflection(direction: Vector, normal: Vector) -> Vector {
    vdifference(direction, vscaled(vscaled(normal, TWO), vdot(normal, direction)))
}

/// A path being traced: the colour it carries so far and the ray it is on.
#[derive(Clone, Copy, Debug)]
pub struct PathState {
    pub color: Vector,
    pub position: Vector,
    pub direction: Vector,
}

/// What one step of a path does: it bounces off a surface, or it leaves the
/// scene (and then takes the sky's colour along its direction).
#[derive(Clone, Copy, Debug)]
pub enum PathStep {
    Bounced(PathState),
    Escaped(PathState),
}

/// One step of a path from `state`, given the random offset `scatter` of the
/// diffuse direction and a uniform random number `draw` in `[0, 1)`. On a
/// hit, the colour is filtered by the material (its colour moved towards
/// white by its reflectance, dimmed by its absorbance), the path restarts
/// just off the surface, and its new direction is the normal plus `scatter`,
/// moved towards the mirror direction by `1 - roughness` when `draw` is below
/// the reflectance; normalized.
pub open spec fn path_step<T: Field>(field: T, state: PathState, scatter: Vector, draw: u64) -> PathStep {
    match cast(field, state.position, state.direction) {
        None => PathStep::Escaped(state),
        Some(pos) => {
            let c = field.surface(pos).1;
            let white = Vector { x: ONE, y: ONE, z: ONE };
            let material = vscaled(vinterpolated(c.color, white, c.reflectance), binary64_difference(ONE, c.absorbance));
            let diffuse = vsum(c.normal, scatter);
            let new_dir = if less(draw, c.reflectance) {
                vinterpolated(reflection(state.direction, c.normal), diffuse, c.roughness)
            } else {
                diffuse
            };
            PathStep::Bounced(PathState {
                color: vproduct(state.color, material),
                position: vsum(pos, vscaled(c.normal, MINIMUM_THRESHOLD)),
                direction: vnormalized(new_dir),
            })
        },
    }
}

/// The factor by which a surface filters the light of a path that bounces
/// off it: its colour moved towards white by its reflectance, times one
/// minus its absorbance. It depends on the surface alone.
pub open spec fn surface_filter(c: crate::characteristics::Characteristics) -> Vector {
    vscaled(
        vinterpolated(c.color, Vector { x: ONE, y: ONE, z: ONE }, c.reflectance),
        binary64_difference(ONE, c.absorbance),
    )
}

/// A step escapes, unchanged, exactly when the ray meets nothing; on a
/// bounce the path restarts just off the hit surface and its colour is its
/// old colour times the filter of the surface hit, so paths of different
/// colours along the same ray are filtered by the same factor.
pub proof fn lemma_bounce_filters_light<T: Field>(field: T, state: PathState, scatter: Vector, draw: u64)
    ensures
        cast(field, state.position, state.direction) is None ==> path_step(field, state, scatter, draw)
            == PathStep::Escaped(state),
        forall|hit: Vector, next: PathState|
            cast(field, state.position, state.direction) == Some(hit)
                && path_step(field, state, scatter, draw) == PathStep::Bounced(next) ==> {
                &&& next.color == vproduct(state.color, surface_filter(field.surface(hit).1))
                &&& next.position == vsum(hit, vscaled(field.surface(hit).1.normal, MINIMUM_THRESHOLD))
            },
        cast(field, state.position, state.direction) is Some ==> path_step(field, state, scatter, draw) is Bounced,
{
}

impl<T: Field> Scene<T> {
    /// Where the ray from `pos` along `dir` first meets the scene.
    pub fn ray_cast(&self, pos: Vector, dir: Vector) -> (r: Option<Vector>)
        ensures
            r == cast(self.field, pos, dir),
    {
        let d = self.field.ray_distance_sampler(pos, dir);
        if lt(ZERO, d) && lt(d, INFINITY) {
            Some(pos.add(dir.scale(d)))
        } else {
            None
        }
    }

    /// One step of tracing a path through the scene.
    pub fn trace_step(&self, state: PathState, scatter: Vector, draw: u64) -> (r: PathStep)
        ensures
            r == path_step(self.field, state, scatter, draw),
    {
        match self.ray_cast(state.position, state.direction) {
            None => PathStep::Escaped(state),
            Some(pos) => {
                let (_, characteristics) = self.field.characteristic_sampler(pos);
                let normal = characteristics.normal;
                let material_color = Vector::interpolate(
                    characteristics.color,
                    Vector::one(),
                    characteristics.reflectance,
                ).scale(difference(ONE, characteristics.absorbance));
                let new_pos = pos.add(normal.scale(MINIMUM_THRESHOLD));
                let mut new_dir = normal.add(scatter);
                if lt(draw, characteristics.reflectance) {
                    let reflection_target = state.direction.sub(
                        normal.scale(TWO).scale(normal.dot(state.direction)),
                    );
                    new_dir = Vector::interpolate(reflection_target, new_dir, characteristics.roughness);
                }
                PathStep::Bounced(PathState {
                    color: state.color.mul(material_color),
                    position: new_pos,
                    direction: new_dir.normalize(),
                })
            },
        }
    }
}

} // verus!
