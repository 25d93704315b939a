//! Distance fields: primitive shapes and their negation, union and intersection.

use vstd::prelude::*;

use crate::binary64::{
    binary64_difference, difference, is_nan, less, lt, neg, negation_of, order_key, INFINITY,
};
use crate::characteristics::Characteristics;
use crate::geometry::{plane_hit, plane_intersection, sphere_hit, sphere_intersection};
use crate::scene::Scene;
use crate::vector::{vdifference, vlength, vnormalized, Vector};

verus! {

/// A shape that answers how far a ray travels before meeting it and what
/// surface lies at a point.
pub trait Field: Sized {
    /// The distance a ray from `pos` along `dir` travels before meeting the
    /// shape (`INFINITY` when it does not).
    spec fn ray_distance(&self, pos: Vector, dir: Vector) -> u64;

    /// The point and the surface characteristics (with normal) at `pos`.
    spec fn surface(&self, pos: Vector) -> (Vector, Characteristics);

    /// The distance used to decide which shape a point belongs to.
    spec fn distance(&self, pos: Vector) -> u64;

    fn ray_distance_sampler(&self, pos: Vector, dir: Vector) -> (r: u64)
        ensures
            r == self.ray_distance(pos, dir),
    ;

    fn distance_sampler(&self, pos: Vector) -> (r: u64)
        ensures
            r == self.distance(pos),
    ;

    fn characteristic_sampler(&self, pos: Vector) -> (r: (Vector, Characteristics))
        ensures
            r == self.surface(pos),
    ;
}

/// A sphere.
pub struct Sphere {
    pub position: Vector,
    pub radius: u64,
    pub characteristics: Characteristics,
}

impl Sphere {
    /// The scene made of one sphere.
    pub fn new(pos: Vector, r: u64, chars: Characteristics) -> (s: Scene<Sphere>)
        ensures
            s.field.position == pos,
            s.field.radius == r,
            s.field.characteristics == chars,
    {
        Scene { field: Sphere { position: pos, radius: r, characteristics: chars } }
    }
}

/// The length from `pos` to a hit, or `INFINITY` without one.
pub open spec fn hit_distance(hit: Option<Vector>, pos: Vector) -> u64 {
    match hit {
        Some(intersect) => vlength(vdifference(intersect, pos)),
        None => INFINITY,
    }
}

impl Field for Sphere {
    open spec fn ray_distance(&self, pos: Vector, dir: Vector) -> u64 {
        hit_distance(sphere_hit(self.position, self.radius, pos, dir), pos)
    }

    open spec fn surface(&self, pos: Vector) -> (Vector, Characteristics) {
        (pos, Characteristics { normal: vnormalized(vdifference(pos, self.position)), ..self.characteristics })
    }

    open spec fn distance(&self, pos: Vector) -> u64 {
        binary64_difference(vlength(vdifference(pos, self.position)), self.radius)
    }

    fn ray_distance_sampler(&self, pos: Vector, dir: Vector) -> (r: u64) {
        match sphere_intersection(self.position, self.radius, pos, dir) {
            Some(intersect) => intersect.sub(pos).length(),
            None => INFINITY,
        }
    }

    fn distance_sampler(&self, pos: Vector) -> (r: u64) {
        difference(pos.sub(self.position).length(), self.radius)
    }

    fn characteristic_sampler(&self, pos: Vector) -> (r: (Vector, Characteristics)) {
        (pos, Characteristics { normal: pos.sub(self.position).normalize(), ..self.characteristics })
    }
}

/// An infinite plane.
pub struct Plane {
    pub normal: Vector,
    pub point: Vector,
    pub characteristics: Characteristics,
}

impl Plane {
    /// The scene made of one plane; its characteristics carry its normal.
    pub fn new(normal: Vector, point: Vector, chars: Characteristics) -> (s: Scene<Plane>)
        ensures
            s.field.normal == normal,
            s.field.point == point,
            s.field.characteristics == (Characteristics { normal, ..chars }),
    {
        Scene {
            field: Plane {
                normal,
                point,
                characteristics: Characteristics { normal, ..chars },
            },
        }
    }
}

impl Field for Plane {
    open spec fn ray_distance(&self, pos: Vector, dir: Vector) -> u64 {
        hit_distance(plane_hit(self.normal, self.point, pos, dir), pos)
    }

    open spec fn surface(&self, pos: Vector) -> (Vector, Characteristics) {
        (pos, self.characteristics)
    }

    /// The ray distance along the plane's own normal.
    open spec fn distance(&self, pos: Vector) -> u64 {
        hit_distance(plane_hit(self.normal, self.point, pos, self.characteristics.normal), pos)
    }

    fn ray_distance_sampler(&self, pos: Vector, dir: Vector) -> (r: u64) {
        match plane_intersection(self.normal, self.point, pos, dir) {
            Some(intersect) => intersect.sub(pos).length(),
            None => INFINITY,
        }
    }

    fn distance_sampler(&self, pos: Vector) -> (r: u64) {
        let (_, chars) = self.characteristic_sampler(pos);
        self.ray_distance_sampler(pos, chars.normal)
    }

    fn characteristic_sampler(&self, pos: Vector) -> (r: (Vector, Characteristics)) {
        (pos, self.characteristics)
    }
}

/// The complement of a shape: ray distances negated, surfaces unchanged.
pub struct Negate<T: Field> {
    pub field: T,
}

impl<T: Field> Field for Negate<T> {
    open spec fn ray_distance(&self, pos: Vector, dir: Vector) -> u64 {
        negation_of(self.field.ray_distance(pos, dir))
    }

    open spec fn surface(&self, pos: Vector) -> (Vector, Characteristics) {
        self.field.surface(pos)
    }

    /// The ray distance along the normal at `pos`.
    open spec fn distance(&self, pos: Vector) -> u64 {
        negation_of(self.field.ray_distance(pos, self.field.surface(pos).1.normal))
    }

    fn ray_distance_sampler(&self, pos: Vector, dir: Vector) -> (r: u64) {
        neg(self.field.ray_distance_sampler(pos, dir))
    }

    fn distance_sampler(&self, pos: Vector) -> (r: u64) {
        let (_, chars) = self.characteristic_sampler(pos);
        self.ray_distance_sampler(pos, chars.normal)
    }

    fn characteristic_sampler(&self, pos: Vector) -> (r: (Vector, Characteristics)) {
        self.field.characteristic_sampler(pos)
    }
}

/// Of two distances, the first when it is strictly smaller, else the second.
pub open spec fn nearer(d1: u64, d2: u64) -> u64 {
    if less(d1, d2) {
        d1
    } else {
        d2
    }
}

/// Of two distances, the first when it is strictly larger, else the second.
pub open spec fn further(d1: u64, d2: u64) -> u64 {
    if less(d2, d1) {
        d1
    } else {
        d2
    }
}

/// Two shapes together: the nearer ray distance, and the surface of the
/// shape nearer to the point.
pub struct Union<T1: Field, T2: Field> {
    pub field1: T1,
    pub field2: T2,
}

impl<T1: Field, T2: Field> Field for Union<T1, T2> {
    open spec fn ray_distance(&self, pos: Vector, dir: Vector) -> u64 {
        nearer(self.field1.ray_distance(pos, dir), self.field2.ray_distance(pos, dir))
    }

    open spec fn surface(&self, pos: Vector) -> (Vector, Characteristics) {
        if less(self.field1.distance(pos), self.field2.distance(pos)) {
            self.field1.surface(pos)
        } else {
            self.field2.surface(pos)
        }
    }

    /// The ray distance along the normal at `pos`.
    open spec fn distance(&self, pos: Vector) -> u64 {
        let normal = if less(self.field1.distance(pos), self.field2.distance(pos)) {
            self.field1.surface(pos).1.normal
        } else {
            self.field2.surface(pos).1.normal
        };
        nearer(self.field1.ray_distance(pos, normal), self.field2.ray_distance(pos, normal))
    }

    fn ray_distance_sampler(&self, pos: Vector, dir: Vector) -> (r: u64) {
        let dist1 = self.field1.ray_distance_sampler(pos, dir);
        let dist2 = self.field2.ray_distance_sampler(pos, dir);
        if lt(dist1, dist2) {
            dist1
        } else {
            dist2
        }
    }

    fn distance_sampler(&self, pos: Vector) -> (r: u64) {
        let (_, chars) = self.characteristic_sampler(pos);
        self.ray_distance_sampler(pos, chars.normal)
    }

    fn characteristic_sampler(&self, pos: Vector) -> (r: (Vector, Characteristics)) {
        let dist1 = self.field1.distance_sampler(pos);
        let dist2 = self.field2.distance_sampler(pos);
        if lt(dist1, dist2) {
            self.field1.characteristic_sampler(pos)
        } else {
            self.field2.characteristic_sampler(pos)
        }
    }
}

/// The common part of two shapes: the further ray distance, and the surface
/// of the shape further from the point.
pub struct Intersection<T1: Field, T2: Field> {
    pub field1: T1,
    pub field2: T2,
}

impl<T1: Field, T2: Field> Field for Intersection<T1, T2> {
    open spec fn ray_distance(&self, pos: Vector, dir: Vector) -> u64 {
        further(self.field1.ray_distance(pos, dir), self.field2.ray_distance(pos, dir))
    }

    open spec fn surface(&self, pos: Vector) -> (Vector, Characteristics) {
        if less(self.field2.distance(pos), self.field1.distance(pos)) {
            self.field1.surface(pos)
        } else {
            self.field2.surface(pos)
        }
    }

    /// The ray distance along the normal at `pos`.
    open spec fn distance(&self, pos: Vector) -> u64 {
        let normal = if less(self.field2.distance(pos), self.field1.distance(pos)) {
            self.field1.surface(pos).1.normal
        } else {
            self.field2.surface(pos).1.normal
        };
        further(self.field1.ray_distance(pos, normal), self.field2.ray_distance(pos, normal))
    }

    fn ray_distance_sampler(&self, pos: Vector, dir: Vector) -> (r: u64) {
        let dist1 = self.field1.ray_distance_sampler(pos, dir);
        let dist2 = self.field2.ray_distance_sampler(pos, dir);
        if lt(dist2, dist1) {
            dist1
        } else {
            dist2
        }
    }

    fn distance_sampler(&self, pos: Vector) -> (r: u64) {
        let (_, chars) = self.characteristic_sampler(pos);
        self.ray_distance_sampler(pos, chars.normal)
    }

    fn characteristic_sampler(&self, pos: Vector) -> (r: (Vector, Characteristics)) {
        let dist1 = self.field1.distance_sampler(pos);
        let dist2 = self.field2.distance_sampler(pos);
        if lt(dist2, dist1) {
            self.field1.characteristic_sampler(pos)
        } else {
            self.field2.characteristic_sampler(pos)
        }
    }
}

/// Negating a shape twice gives back its ray distances and its surfaces.
pub proof fn lemma_double_negation<T: Field>(field: Negate<Negate<T>>, pos: Vector, dir: Vector)
    ensures
        field.ray_distance(pos, dir) == field.field.field.ray_distance(pos, dir),
        field.surface(pos) == field.field.field.surface(pos),
{
    crate::binary64::lemma_double_negation(field.field.field.ray_distance(pos, dir));
}

/// A union's ray distance is one of its parts' and, where neither is NaN, no
/// greater than either.
pub proof fn lemma_union_is_nearest<T1: Field, T2: Field>(field: Union<T1, T2>, pos: Vector, dir: Vector)
    ensures
        field.ray_distance(pos, dir) == field.field1.ray_distance(pos, dir)
            || field.ray_distance(pos, dir) == field.field2.ray_distance(pos, dir),
        !is_nan(field.field1.ray_distance(pos, dir)) && !is_nan(field.field2.ray_distance(pos, dir))
            ==> order_key(field.ray_distance(pos, dir)) <= order_key(field.field1.ray_distance(pos, dir))
            && order_key(field.ray_distance(pos, dir)) <= order_key(field.field2.ray_distance(pos, dir)),
{
}

/// A union's surface at a point is that of the part nearer to the point:
/// the first part's when its distance is strictly smaller, the second's when
/// the second's is strictly smaller (and the second's on a tie).
pub proof fn lemma_union_surface_is_nearest<T1: Field, T2: Field>(field: Union<T1, T2>, pos: Vector)
    ensures
        less(field.field1.distance(pos), field.field2.distance(pos)) ==> field.surface(pos)
            == field.field1.surface(pos),
        less(field.field2.distance(pos), field.field1.distance(pos)) ==> field.surface(pos)
            == field.field2.surface(pos),
        crate::binary64::equal(field.field1.distance(pos), field.field2.distance(pos)) ==> field.surface(pos)
            == field.field2.surface(pos),
{
}

/// An intersection's surface at a point is that of the part further from
/// the point: the first part's when its distance is strictly larger, the
/// second's when the second's is strictly larger.
pub proof fn lemma_intersection_surface_is_furthest<T1: Field, T2: Field>(
    field: Intersection<T1, T2>,
    pos: Vector,
)
    ensures
        less(field.field2.distance(pos), field.field1.distance(pos)) ==> field.surface(pos)
            == field.field1.surface(pos),
        less(field.field1.distance(pos), field.field2.distance(pos)) ==> field.surface(pos)
            == field.field2.surface(pos),
{
}

/// An intersection's ray distance is one of its parts' and, where neither is
/// NaN, no smaller than either.
pub proof fn lemma_intersection_is_furthest<T1: Field, T2: Field>(
    field: Intersection<T1, T2>,
    pos: Vector,
    dir: Vector,
)
    ensures
        field.ray_distance(pos, dir) == field.field1.ray_distance(pos, dir)
            || field.ray_distance(pos, dir) == field.field2.ray_distance(pos, dir),
        !is_nan(field.field1.ray_distance(pos, dir)) && !is_nan(field.field2.ray_distance(pos, dir))
            ==> order_key(field.ray_distance(pos, dir)) >= order_key(field.field1.ray_distance(pos, dir))
            && order_key(field.ray_distance(pos, dir)) >= order_key(field.field2.ray_distance(pos, dir)),
{
}

} // verus!
