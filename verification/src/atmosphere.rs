//! The geometry of the planet and its atmosphere, and the midpoint rule that
//! integrates quantities along a path through it.

use vstd::prelude::*;

use crate::binary64::{
    binary64_product, binary64_quotient, binary64_sum, less, lt, product, quotient, sum, ONE, TWO,
};
use crate::geometry::{ray_sphere_root, sphere_root};
use crate::vector::{vdifference, vdivided, vdot, vequal, vlength, vnormalized, vscaled, vsum, vzero, Vector};

verus! {

/// `6360e3`: the planet's radius in metres.
pub const PLANET_RADIUS: u64 = 0x4158_42F0_0000_0000;

/// `6420e3`: the radius of the top of the atmosphere in metres.
pub const ATMOSPHERE_RADIUS: u64 = 0x4158_7D88_0000_0000;

/// The number of samples the midpoint rule takes along a path.
pub const SAMPLE_COUNT: usize = 8;

/// `8.0`, the sample count as a binary64 value.
pub const SAMPLE_COUNT_VALUE: u64 = 0x4020_0000_0000_0000;

/// `std::f64::consts::PI`
pub const PI: u64 = 0x4009_21FB_5444_2D18;

/// `3.0`
pub const THREE: u64 = 0x4008_0000_0000_0000;

/// `16.0`
pub const SIXTEEN: u64 = 0x4030_0000_0000_0000;

/// The Rayleigh phase function at `mu`, the cosine of the angle between the
/// view and the sun: `3 / (16 pi) * (1 + mu^2)`.
pub open spec fn rayleigh_phase(mu: u64) -> u64 {
    binary64_product(
        binary64_quotient(THREE, binary64_product(SIXTEEN, PI)),
        binary64_sum(ONE, binary64_product(mu, mu)),
    )
}

/// Computes `rayleigh_phase`.
pub fn rayleigh_phase_function(mu: u64) -> (r: u64)
    ensures
        r == rayleigh_phase(mu),
{
    product(quotient(THREE, product(SIXTEEN, PI)), sum(ONE, product(mu, mu)))
}

/// Where the ray from `position` along `direction` meets the sphere of
/// radius `radius` about the planet's centre (the origin), if ahead.
pub open spec fn origin_sphere_hit(radius: u64, position: Vector, direction: Vector) -> Option<Vector> {
    match sphere_root(position, radius, direction) {
        None => None,
        Some((t, _)) => Some(vsum(position, vscaled(direction, t))),
    }
}

/// The point where the ray from `position` along `direction` meets the
/// sphere of radius `radius` about the origin, if it meets it ahead.
pub fn sphere_intersection(radius: u64, position: Vector, direction: Vector) -> (r: Option<Vector>)
    ensures
        r == origin_sphere_hit(radius, position, direction),
{
    match ray_sphere_root(position, radius, direction) {
        None => None,
        Some((t, _)) => Some(position.add(direction.scale(t))),
    }
}

/// The end of the view ray through the atmosphere: where the ray leaves it
/// or hits the ground. With both spheres hit, the hit further from
/// `position` (by squared distance; the planet's hit unless the atmosphere's
/// is strictly further); with one, that one; with none, `position` itself.
pub open spec fn atmosphere_exit(position: Vector, direction: Vector) -> Vector {
    let planet = origin_sphere_hit(PLANET_RADIUS, position, direction);
    let atmosphere = origin_sphere_hit(ATMOSPHERE_RADIUS, position, direction);
    match (planet, atmosphere) {
        (None, None) => position,
        (Some(p), None) => p,
        (None, Some(p)) => p,
        (Some(p1), Some(p2)) => {
            let d1 = vdot(vdifference(p1, position), vdifference(p1, position));
            let d2 = vdot(vdifference(p2, position), vdifference(p2, position));
            if less(d1, d2) {
                p2
            } else {
                p1
            }
        },
    }
}

/// Where the view ray from `position` along `direction` ends in the atmosphere.
pub fn atmosphere_intersection(position: Vector, direction: Vector) -> (r: Vector)
    ensures
        r == atmosphere_exit(position, direction),
{
    let planet_intersect = sphere_intersection(PLANET_RADIUS, position, direction);
    let atmosphere_intersect = sphere_intersection(ATMOSPHERE_RADIUS, position, direction);
    match (planet_intersect, atmosphere_intersect) {
        (None, None) => position,
        (Some(p), None) => p,
        (None, Some(p)) => p,
        (Some(p1), Some(p2)) => {
            let p1_dist = p1.sub(position).length_squared();
            let p2_dist = p2.sub(position).length_squared();
            if lt(p1_dist, p2_dist) {
                p2
            } else {
                p1
            }
        },
    }
}

/// Where sunlight reaching `pos` along `sun_direction` entered the
/// atmosphere: none when the ray towards the sun does not meet the top of
/// the atmosphere, or meets the planet strictly nearer (by squared distance)
/// than the top of the atmosphere.
pub open spec fn sun_entry(pos: Vector, sun_direction: Vector) -> Option<Vector> {
    match origin_sphere_hit(ATMOSPHERE_RADIUS, pos, sun_direction) {
        None => None,
        Some(entry) => match origin_sphere_hit(PLANET_RADIUS, pos, sun_direction) {
            None => Some(entry),
            Some(ground) => {
                let ground_dist = vdot(vdifference(ground, pos), vdifference(ground, pos));
                let entry_dist = vdot(vdifference(entry, pos), vdifference(entry, pos));
                if less(ground_dist, entry_dist) {
                    None
                } else {
                    Some(entry)
                }
            },
        },
    }
}

/// Shadow and light: sunlight reaches `pos` exactly when the ray towards the
/// sun meets the top of the atmosphere and does not meet the ground strictly
/// nearer (by squared distance); it then enters where that ray meets the top
/// of the atmosphere.
pub proof fn lemma_sunlight_and_shadow(pos: Vector, sun_direction: Vector)
    ensures
        origin_sphere_hit(ATMOSPHERE_RADIUS, pos, sun_direction) is None ==> sun_entry(pos, sun_direction) is None,
        forall|g: Vector, e: Vector|
            origin_sphere_hit(PLANET_RADIUS, pos, sun_direction) == Some(g)
                && origin_sphere_hit(ATMOSPHERE_RADIUS, pos, sun_direction) == Some(e)
                && less(
                    vdot(vdifference(g, pos), vdifference(g, pos)),
                    vdot(vdifference(e, pos), vdifference(e, pos)),
                ) ==> sun_entry(pos, sun_direction) is None,
        forall|e: Vector|
            sun_entry(pos, sun_direction) == Some(e) ==> {
                &&& origin_sphere_hit(ATMOSPHERE_RADIUS, pos, sun_direction) == Some(e)
                &&& forall|g: Vector|
                    origin_sphere_hit(PLANET_RADIUS, pos, sun_direction) == Some(g) ==> !less(
                        vdot(vdifference(g, pos), vdifference(g, pos)),
                        vdot(vdifference(e, pos), vdifference(e, pos)),
                    )
            },
        origin_sphere_hit(ATMOSPHERE_RADIUS, pos, sun_direction) is Some
            && origin_sphere_hit(PLANET_RADIUS, pos, sun_direction) is None
            ==> sun_entry(pos, sun_direction) == origin_sphere_hit(ATMOSPHERE_RADIUS, pos, sun_direction),
{
}

/// The point where the sunlight that reaches `pos` entered the atmosphere,
/// or `None` when `pos` is in the planet's shadow or the sun's ray misses
/// the atmosphere.
pub fn sunlight_entry(pos: Vector, sun_direction: Vector) -> (r: Option<Vector>)
    ensures
        r == sun_entry(pos, sun_direction),
{
    let sun_atmosphere_intersect = match sphere_intersection(ATMOSPHERE_RADIUS, pos, sun_direction) {
        None => return None,
        Some(p) => p,
    };
    let atmosphere_dist = sun_atmosphere_intersect.sub(pos).length_squared();
    match sphere_intersection(PLANET_RADIUS, pos, sun_direction) {
        None => Some(sun_atmosphere_intersect),
        Some(sun_planet_intersect) => {
            let planet_dist = sun_planet_intersect.sub(pos).length_squared();
            if lt(planet_dist, atmosphere_dist) {
                None
            } else {
                Some(sun_atmosphere_intersect)
            }
        },
    }
}

/// The distance between consecutive samples on the path from `a` to `b`.
pub open spec fn sample_distance(a: Vector, b: Vector) -> u64 {
    binary64_quotient(vlength(vdifference(b, a)), SAMPLE_COUNT_VALUE)
}

/// The step from one sample to the next.
pub open spec fn sample_step(a: Vector, b: Vector) -> Vector {
    vscaled(vnormalized(vdifference(b, a)), sample_distance(a, b))
}

/// The `k`-th sample point: half a step from `a`, then `k` whole steps on,
/// each step added in turn.
pub open spec fn sample_point(a: Vector, b: Vector, k: nat) -> Vector
    decreases k,
{
    if k == 0 {
        vsum(a, vdivided(sample_step(a, b), TWO))
    } else {
        vsum(sample_point(a, b, (k - 1) as nat), sample_step(a, b))
    }
}

/// The sum of the first `k` samples `values`, each weighted by the sample
/// distance, added in turn to `(0, 0, 0)`.
pub open spec fn weighted_sum(a: Vector, b: Vector, values: Seq<Vector>, k: nat) -> Vector
    decreases k,
{
    if k == 0 {
        vzero()
    } else {
        vsum(
            weighted_sum(a, b, values, (k - 1) as nat),
            vscaled(values[k - 1], sample_distance(a, b)),
        )
    }
}

/// Integrates `body` along the segment from `a` to `b` by the midpoint rule
/// with `SAMPLE_COUNT` samples: zero when `a == b`; otherwise the sum of
/// `body` at each sample point times the sample distance.
pub fn numerical_integration<F: Fn(Vector) -> Vector>(a: Vector, b: Vector, body: F) -> (r: Vector)
    requires
        forall|p: Vector| call_requires(body, (p,)),
    ensures
        vequal(a, b) ==> r == vzero(),
        !vequal(a, b) ==> exists|values: Seq<Vector>|
            {
                &&& values.len() == SAMPLE_COUNT
                &&& forall|k: int|
                    0 <= k < SAMPLE_COUNT ==> call_ensures(
                        body,
                        (#[trigger] sample_point(a, b, k as nat),),
                        values[k],
                    )
                &&& r == weighted_sum(a, b, values, SAMPLE_COUNT as nat)
            },
{
    if a.same(b) {
        return Vector::zero();
    }
    let mut current_pos = a;
    let diff = b.sub(a);
    let dir = diff.normalize();
    let total_distance = diff.length();
    let sample_distance = quotient(total_distance, SAMPLE_COUNT_VALUE);
    let sample_delta = dir.scale(sample_distance);
    current_pos = current_pos.add(sample_delta.divide(TWO));
    let mut sum = Vector::zero();
    let ghost mut values: Seq<Vector> = Seq::empty();
    let mut i: usize = 0;
    while i < SAMPLE_COUNT
        invariant
            i <= SAMPLE_COUNT,
            forall|p: Vector| call_requires(body, (p,)),
            sample_distance == crate::atmosphere::sample_distance(a, b),
            sample_delta == sample_step(a, b),
            current_pos == sample_point(a, b, i as nat),
            values.len() == i,
            forall|k: int|
                0 <= k < i ==> call_ensures(body, (#[trigger] sample_point(a, b, k as nat),), values[k]),
            sum == weighted_sum(a, b, values, i as nat),
        decreases SAMPLE_COUNT - i,
    {
        let value = body(current_pos);
        proof {
            let old_values = values;
            values = values.push(value);
            assert(values.subrange(0, i as int) == old_values);
            lemma_weighted_sum_prefix(a, b, old_values, values, i as nat);
        }
        sum = sum.add(value.scale(sample_distance));
        current_pos = current_pos.add(sample_delta);
        i = i + 1;
    }
    sum
}

/// `weighted_sum` of the first `k` values reads only those values.
proof fn lemma_weighted_sum_prefix(a: Vector, b: Vector, s: Seq<Vector>, t: Seq<Vector>, k: nat)
    requires
        k <= s.len(),
        k <= t.len(),
        forall|j: int| 0 <= j < k ==> s[j] == t[j],
    ensures
        weighted_sum(a, b, s, k) == weighted_sum(a, b, t, k),
    decreases k,
{
    if k > 0 {
        lemma_weighted_sum_prefix(a, b, s, t, (k - 1) as nat);
    }
}

} // verus!
