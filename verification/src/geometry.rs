//! Ray intersections with planes and spheres.

use vstd::prelude::*;

use crate::binary64::{
    abs, abs_of, binary64_difference, binary64_product, binary64_quotient, binary64_square_root,
    binary64_sum, difference, less, lt, min, min_of, product, quotient, square_root, sum, NEG_ONE,
    ZERO,
};
use crate::vector::{vdifference, vdot, vscaled, vsum, Vector};

verus! {

/// `1.0e-6`: below this `|normal . direction|` the ray counts as parallel to a plane.
pub const PARALLEL_TOLERANCE: u64 = 0x3EB0_C6F7_A0B5_ED8D;

/// `0.0001`: a plane hit must lie further along the ray than this.
pub const MIN_PLANE_DISTANCE: u64 = 0x3F1A_36E2_EB1C_432D;

/// The ray parameter at which the ray from `position` along `direction`
/// meets the plane through `point` with normal `normal`.
pub open spec fn plane_parameter(normal: Vector, point: Vector, position: Vector, direction: Vector) -> u64 {
    binary64_quotient(vdot(vdifference(point, position), normal), vdot(normal, direction))
}

/// Where the ray meets the plane: none when the ray is (nearly) parallel to
/// it or the meeting point is not in front of `position`.
pub open spec fn plane_hit(normal: Vector, point: Vector, position: Vector, direction: Vector) -> Option<Vector> {
    if less(PARALLEL_TOLERANCE, abs_of(vdot(normal, direction))) {
        let t = plane_parameter(normal, point, position, direction);
        if less(MIN_PLANE_DISTANCE, t) {
            Some(vsum(position, vscaled(direction, t)))
        } else {
            None
        }
    } else {
        None
    }
}

/// The point where the ray from `position` along `direction` meets the plane
/// through `point` with normal `normal`, if it meets it in front of `position`.
pub fn plane_intersection(normal: Vector, point: Vector, position: Vector, direction: Vector) -> (r: Option<Vector>)
    ensures
        r == plane_hit(normal, point, position, direction),
{
    let denom = normal.dot(direction);
    if lt(PARALLEL_TOLERANCE, abs(denom)) {
        let difference = point.sub(position);
        let t = quotient(difference.dot(normal), denom);
        if lt(MIN_PLANE_DISTANCE, t) {
            return Some(position.add(direction.scale(t)));
        }
    }
    None
}

/// The ray parameter chosen where the ray from `rel` (a position relative to
/// the centre) along `direction` meets the sphere of radius `radius` about the
/// origin, with whether both roots lay ahead of the ray's start.
///
/// With `l = -rel`, `tca = l . direction`, `d2 = l . l - tca^2`: no root when
/// `d2 > radius^2`; otherwise `t0 = tca - thc`, `t1 = tca + thc` with
/// `thc = sqrt(radius^2 - d2)`. If `t0 < 0` the root is `t1` unless that is
/// negative too; else if `t1 < 0` it is `t0`; else it is `min(t0, t1)`.
pub open spec fn sphere_root(rel: Vector, radius: u64, direction: Vector) -> Option<(u64, bool)> {
    let l = vscaled(rel, NEG_ONE);
    let tca = vdot(l, direction);
    let d2 = binary64_difference(vdot(l, l), binary64_product(tca, tca));
    let radius2 = binary64_product(radius, radius);
    if less(radius2, d2) {
        None
    } else {
        let thc = binary64_square_root(binary64_difference(radius2, d2));
        let t0 = binary64_difference(tca, thc);
        let t1 = binary64_sum(tca, thc);
        if less(t0, ZERO) {
            if less(t1, ZERO) {
                None
            } else {
                Some((t1, false))
            }
        } else if less(t1, ZERO) {
            Some((t0, false))
        } else {
            Some((min_of(t0, t1), true))
        }
    }
}

/// Computes `sphere_root`.
pub fn ray_sphere_root(rel: Vector, radius: u64, direction: Vector) -> (r: Option<(u64, bool)>)
    ensures
        r == sphere_root(rel, radius, direction),
{
    let l = rel.scale(NEG_ONE);
    let tca = l.dot(direction);
    let d2 = difference(l.dot(l), product(tca, tca));
    let radius2 = product(radius, radius);
    if lt(radius2, d2) {
        return None;
    }
    let thc = square_root(difference(radius2, d2));
    let t0 = difference(tca, thc);
    let t1 = sum(tca, thc);
    if lt(t0, ZERO) {
        if lt(t1, ZERO) {
            return None;
        } else {
            return Some((t1, false));
        }
    } else if lt(t1, ZERO) {
        return Some((t0, false));
    }
    Some((min(t0, t1), true))
}

/// Where the ray from `position` along `direction` meets the sphere about
/// `center`. When only one root lies ahead the point is given relative to the
/// centre (`position - center + t * direction`); when both do, in world space
/// (`position - center + center + t * direction`).
pub open spec fn sphere_hit(center: Vector, radius: u64, position: Vector, direction: Vector) -> Option<Vector> {
    let rel = vdifference(position, center);
    match sphere_root(rel, radius, direction) {
        None => None,
        Some((t, false)) => Some(vsum(rel, vscaled(direction, t))),
        Some((t, true)) => Some(vsum(vsum(rel, center), vscaled(direction, t))),
    }
}

/// The ray parameter of the point nearest the centre: `-rel . direction`.
pub open spec fn closest_approach(rel: Vector, direction: Vector) -> u64 {
    vdot(vscaled(rel, NEG_ONE), direction)
}

/// The squared distance from the centre to the ray's line:
/// `|rel|^2 - closest_approach^2`.
pub open spec fn miss_distance_squared(rel: Vector, direction: Vector) -> u64 {
    let l = vscaled(rel, NEG_ONE);
    binary64_difference(vdot(l, l), binary64_product(closest_approach(rel, direction), closest_approach(rel, direction)))
}

/// Half the chord the line cuts from the sphere of radius `radius`:
/// `sqrt(radius^2 - miss_distance^2)`, by Pythagoras.
pub open spec fn half_chord(rel: Vector, radius: u64, direction: Vector) -> u64 {
    binary64_square_root(binary64_difference(binary64_product(radius, radius), miss_distance_squared(rel, direction)))
}

/// Whether `t` is one of the two parameters `closest_approach -/+ half_chord`
/// at which the line crosses the sphere of radius `radius`.
pub open spec fn is_crossing(rel: Vector, radius: u64, direction: Vector, t: u64) -> bool {
    t == binary64_difference(closest_approach(rel, direction), half_chord(rel, radius, direction))
        || t == binary64_sum(closest_approach(rel, direction), half_chord(rel, radius, direction))
}

/// A sphere hit lies on the sphere of the given radius, ahead of the ray:
/// the line is missed when it passes further from the centre than `radius`;
/// a hit is at a parameter `t` that is not negative and is one of the two
/// crossings `closest_approach -/+ half_chord` of the line with the sphere
/// of radius `radius`; with both crossings ahead it is the nearer one and
/// the point is in world space, otherwise relative to the centre.
pub proof fn lemma_sphere_hit_on_sphere(center: Vector, radius: u64, position: Vector, direction: Vector)
    ensures
        less(binary64_product(radius, radius), miss_distance_squared(vdifference(position, center), direction))
            ==> sphere_hit(center, radius, position, direction) is None,
        forall|q: Vector|
            sphere_hit(center, radius, position, direction) == Some(q) ==> exists|t: u64|
                #![trigger is_crossing(vdifference(position, center), radius, direction, t)]
                {
                    let rel = vdifference(position, center);
                    let t0 = binary64_difference(closest_approach(rel, direction), half_chord(rel, radius, direction));
                    let t1 = binary64_sum(closest_approach(rel, direction), half_chord(rel, radius, direction));
                    &&& is_crossing(rel, radius, direction, t)
                    &&& !less(t, ZERO)
                    &&& if !less(t0, ZERO) && !less(t1, ZERO) {
                        t == min_of(t0, t1) && q == vsum(vsum(rel, center), vscaled(direction, t))
                    } else {
                        q == vsum(rel, vscaled(direction, t))
                    }
                },
{
    let rel = vdifference(position, center);
    match sphere_root(rel, radius, direction) {
        None => {},
        Some((t, _)) => {
            let t0 = binary64_difference(closest_approach(rel, direction), half_chord(rel, radius, direction));
            let t1 = binary64_sum(closest_approach(rel, direction), half_chord(rel, radius, direction));
            assert(is_crossing(rel, radius, direction, t));
        },
    }
}

/// The point where the ray from `position` along `direction` meets the sphere
/// with the given `center` and `radius`, if it meets it ahead.
pub fn sphere_intersection(center: Vector, radius: u64, position: Vector, direction: Vector) -> (r: Option<Vector>)
    ensures
        r == sphere_hit(center, radius, position, direction),
{
    let position = position.sub(center);
    match ray_sphere_root(position, radius, direction) {
        None => None,
        Some((t, both_ahead)) => {
            if both_ahead {
                Some(position.add(center).add(direction.scale(t)))
            } else {
                Some(position.add(direction.scale(t)))
            }
        },
    }
}

} // verus!
