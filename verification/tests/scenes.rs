use pathtracer::binary64::INFINITY;
use pathtracer::characteristics::Characteristics;
use pathtracer::distance_field::{Field, Plane, Sphere};
use pathtracer::render::{choose_pixel, pixel_index, renders_column, SampleAccumulator};
use pathtracer::vector::Vector;

fn b(x: f64) -> u64 {
    x.to_bits()
}

fn f(x: u64) -> f64 {
    f64::from_bits(x)
}

fn v(x: f64, y: f64, z: f64) -> Vector {
    Vector::new(b(x), b(y), b(z))
}

fn back(a: Vector) -> (f64, f64, f64) {
    (f(a.x), f(a.y), f(a.z))
}

#[test]
fn characteristics_constructors() {
    let d = Characteristics::default();
    assert_eq!(back(d.color), (0.0, 0.0, 0.0));
    assert_eq!((f(d.roughness), f(d.reflectance), f(d.absorbance)), (0.0, 0.0, 0.0));
    let m = Characteristics::mirror(v(0.5, 0.6, 0.7));
    assert_eq!(back(m.color), (0.5, 0.6, 0.7));
    assert_eq!((f(m.roughness), f(m.reflectance), f(m.absorbance)), (0.0, 1.0, 0.1));
    let t = Characteristics::matte(Vector::one());
    assert_eq!(back(t.color), (1.0, 1.0, 1.0));
    assert_eq!((f(t.roughness), f(t.reflectance), f(t.absorbance)), (1.0, 0.0, 0.3));
}

#[test]
fn sphere_field_distances() {
    let s = Sphere::new(v(0.0, 0.0, 5.0), b(1.0), Characteristics::matte(Vector::one()));
    assert_eq!(f(s.field.ray_distance_sampler(v(0.0, 0.0, 0.0), v(0.0, 0.0, 1.0))), 4.0);
    assert_eq!(s.field.ray_distance_sampler(v(0.0, 0.0, 0.0), v(0.0, 1.0, 0.0)), INFINITY);
    assert_eq!(f(s.field.distance_sampler(v(0.0, 0.0, 0.0))), 4.0);
    let (p, c) = s.field.characteristic_sampler(v(0.0, 2.0, 5.0));
    assert_eq!(back(p), (0.0, 2.0, 5.0));
    assert_eq!(back(c.normal), (0.0, 1.0, 0.0));
    assert_eq!(f(c.absorbance), 0.3);
}

#[test]
fn plane_field_carries_its_normal() {
    let g = Plane::new(v(0.0, 1.0, 0.0), v(0.0, -1.0, 0.0), Characteristics::matte(Vector::one()));
    let (_, c) = g.field.characteristic_sampler(v(3.0, 0.0, 1.0));
    assert_eq!(back(c.normal), (0.0, 1.0, 0.0));
    assert_eq!(f(g.field.ray_distance_sampler(v(0.0, 2.0, 0.0), v(0.0, -1.0, 0.0))), 3.0);
    // along its own normal, looking up, the plane below is never met
    assert_eq!(g.field.distance_sampler(v(0.0, 2.0, 0.0)), INFINITY);
}

#[test]
fn union_takes_the_nearer_shape() {
    let near = Sphere::new(v(0.0, 0.0, 3.0), b(1.0), Characteristics::mirror(Vector::one()));
    let far = Sphere::new(v(0.0, 0.0, 10.0), b(1.0), Characteristics::matte(Vector::one()));
    let scene = near + far;
    assert_eq!(f(scene.field.ray_distance_sampler(v(0.0, 0.0, 0.0), v(0.0, 0.0, 1.0))), 2.0);
    let (_, c) = scene.field.characteristic_sampler(v(0.0, 0.0, 2.5));
    assert_eq!(f(c.reflectance), 1.0);
    let (_, c) = scene.field.characteristic_sampler(v(0.0, 0.0, 9.5));
    assert_eq!(f(c.reflectance), 0.0);
}

#[test]
fn intersection_takes_the_further_shape() {
    let near = Sphere::new(v(0.0, 0.0, 3.0), b(1.0), Characteristics::mirror(Vector::one()));
    let far = Sphere::new(v(0.0, 0.0, 10.0), b(1.0), Characteristics::matte(Vector::one()));
    let scene = near * far;
    assert_eq!(f(scene.field.ray_distance_sampler(v(0.0, 0.0, 0.0), v(0.0, 0.0, 1.0))), 9.0);
    let (_, c) = scene.field.characteristic_sampler(v(0.0, 0.0, 2.5));
    assert_eq!(f(c.reflectance), 0.0);
}

#[test]
fn negation_negates_ray_distances() {
    let s = Sphere::new(v(0.0, 0.0, 5.0), b(1.0), Characteristics::matte(Vector::one()));
    let n = !s;
    assert_eq!(f(n.field.ray_distance_sampler(v(0.0, 0.0, 0.0), v(0.0, 0.0, 1.0))), -4.0);
    let nn = !n;
    assert_eq!(f(nn.field.ray_distance_sampler(v(0.0, 0.0, 0.0), v(0.0, 0.0, 1.0))), 4.0);
    let (_, c) = nn.field.characteristic_sampler(v(0.0, 2.0, 5.0));
    assert_eq!(back(c.normal), (0.0, 1.0, 0.0));
}

#[test]
fn pixel_indices_are_row_major() {
    assert_eq!(pixel_index(0, 0, 960, 540), 0);
    assert_eq!(pixel_index(959, 0, 960, 540), 959);
    assert_eq!(pixel_index(0, 1, 960, 540), 960);
    assert_eq!(pixel_index(959, 539, 960, 540), 960 * 540 - 1);
}

#[test]
fn each_column_has_one_thread() {
    for column in 0..20usize {
        let owners: Vec<usize> = (0..4).filter(|&t| renders_column(column, t, 4)).collect();
        assert_eq!(owners, vec![column % 4]);
    }
}

#[test]
fn chosen_pixels_are_in_the_image() {
    let mut rng = rand::thread_rng();
    for _ in 0..200 {
        let (x, y) = choose_pixel(&mut rng, 7, 3);
        assert!(x < 7 && y < 3);
    }
    assert_eq!(choose_pixel(&mut rng, 1, 1), (0, 0));
}

#[test]
fn accumulator_averages_per_pixel() {
    let mut acc = SampleAccumulator::new(4, 3);
    assert_eq!(acc.get_width(), 4);
    assert_eq!(acc.get_height(), 3);
    let mean = acc.record(1, 2, v(3.0, 6.0, 9.0), 3);
    assert_eq!(back(mean), (1.0, 2.0, 3.0));
    let mean = acc.record(1, 2, v(1.0, 2.0, 3.0), 1);
    assert_eq!(back(mean), (1.0, 2.0, 3.0));
    assert_eq!(acc.count(1, 2), 4);
    assert_eq!(back(acc.color_sum(1, 2)), (4.0, 8.0, 12.0));
    assert_eq!(acc.count(2, 1), 0);
    assert_eq!(back(acc.color_sum(2, 1)), (0.0, 0.0, 0.0));
}

#[test]
fn accumulator_mean_divides_by_the_count_as_a_double() {
    let mut acc = SampleAccumulator::new(1, 1);
    let mean = acc.record(0, 0, v(1.0, 0.1, 7.0), 3);
    assert_eq!(back(mean), (1.0 / 3.0, 0.1 / 3.0, 7.0 / 3.0));
    let big = (1u64 << 53) + 1;
    let mean = acc.record(0, 0, v(0.0, 0.0, 0.0), big - 3);
    assert_eq!(mean.x, b(1.0 / (big as f64)));
}

use pathtracer::scene::{PathState, PathStep};

fn state(color: (f64, f64, f64), p: (f64, f64, f64), d: (f64, f64, f64)) -> PathState {
    PathState { color: v(color.0, color.1, color.2), position: v(p.0, p.1, p.2), direction: v(d.0, d.1, d.2) }
}

#[test]
fn ray_cast_finds_the_first_surface() {
    let scene = Sphere::new(v(0.0, 0.0, 5.0), b(1.0), Characteristics::matte(Vector::one()));
    let hit = scene.ray_cast(v(0.0, 0.0, 0.0), v(0.0, 0.0, 1.0)).map(back);
    assert_eq!(hit, Some((0.0, 0.0, 4.0)));
    assert!(scene.ray_cast(v(0.0, 0.0, 0.0), v(0.0, 1.0, 0.0)).is_none());
    // negative distances do not count as hits
    let inverted = !Sphere::new(v(0.0, 0.0, 5.0), b(1.0), Characteristics::matte(Vector::one()));
    assert!(inverted.ray_cast(v(0.0, 0.0, 0.0), v(0.0, 0.0, 1.0)).is_none());
}

#[test]
fn matte_bounce_follows_the_normal() {
    let scene = Sphere::new(v(0.0, 0.0, 5.0), b(1.0), Characteristics::matte(Vector::one()));
    match scene.trace_step(state((1.0, 1.0, 1.0), (0.0, 0.0, 0.0), (0.0, 0.0, 1.0)), v(0.0, 0.0, 0.0), b(0.5)) {
        PathStep::Bounced(next) => {
            assert_eq!(back(next.color), (0.7, 0.7, 0.7));
            assert_eq!(back(next.position), (0.0, 0.0, 3.999));
            assert_eq!(back(next.direction), (0.0, 0.0, -1.0));
        }
        PathStep::Escaped(_) => panic!("the sphere is straight ahead"),
    }
}

#[test]
fn mirror_bounce_reflects() {
    let scene = Sphere::new(v(0.0, 0.0, 5.0), b(1.0), Characteristics::mirror(v(0.2, 0.4, 0.6)));
    match scene.trace_step(state((0.5, 1.0, 1.0), (0.0, 0.0, 0.0), (0.0, 0.0, 1.0)), v(0.3, 0.0, 0.0), b(0.5)) {
        PathStep::Bounced(next) => {
            assert_eq!(back(next.color), (0.5 * 0.9, 0.9, 0.9));
            assert_eq!(back(next.direction), (0.0, 0.0, -1.0));
        }
        PathStep::Escaped(_) => panic!("the sphere is straight ahead"),
    }
}

#[test]
fn escaping_path_keeps_its_state() {
    let scene = Sphere::new(v(0.0, 0.0, 5.0), b(1.0), Characteristics::matte(Vector::one()));
    match scene.trace_step(state((0.3, 0.2, 0.1), (0.0, 0.0, 0.0), (0.0, 1.0, 0.0)), v(0.0, 0.0, 0.0), b(0.5)) {
        PathStep::Escaped(last) => {
            assert_eq!(back(last.color), (0.3, 0.2, 0.1));
            assert_eq!(back(last.direction), (0.0, 1.0, 0.0));
        }
        PathStep::Bounced(_) => panic!("nothing lies above"),
    }
}

#[test]
fn glossy_bounce_matches_native() {
    let (cx, cy, cz) = (0.3, -0.2, 5.0);
    let chars = Characteristics { roughness: b(0.25), ..Characteristics::mirror(v(0.9, 0.5, 0.1)) };
    let scene = Sphere::new(v(cx, cy, cz), b(1.0), chars);
    let d = {
        let (x, y, z): (f64, f64, f64) = (0.05, 0.02, 1.0);
        let l = (x * x + y * y + z * z).sqrt();
        (x / l, y / l, z / l)
    };
    let scatter = (0.1, -0.3, 0.2);
    let next = match scene.trace_step(state((1.0, 1.0, 1.0), (0.0, 0.0, 0.0), d), v(scatter.0, scatter.1, scatter.2), b(0.2)) {
        PathStep::Bounced(next) => next,
        PathStep::Escaped(_) => panic!("the sphere is ahead"),
    };
    // the same step in native arithmetic
    let hit = back(scene.ray_cast(v(0.0, 0.0, 0.0), v(d.0, d.1, d.2)).unwrap());
    let rel = (hit.0 - cx, hit.1 - cy, hit.2 - cz);
    let rl = (rel.0 * rel.0 + rel.1 * rel.1 + rel.2 * rel.2).sqrt();
    let n = (rel.0 / rl, rel.1 / rl, rel.2 / rl);
    let nd = n.0 * d.0 + n.1 * d.1 + n.2 * d.2;
    let refl = (d.0 - n.0 * 2.0 * nd, d.1 - n.1 * 2.0 * nd, d.2 - n.2 * 2.0 * nd);
    let diffuse = (n.0 + scatter.0, n.1 + scatter.1, n.2 + scatter.2);
    let r = 0.25;
    let nd2 = (refl.0 * (1.0 - r) + diffuse.0 * r, refl.1 * (1.0 - r) + diffuse.1 * r, refl.2 * (1.0 - r) + diffuse.2 * r);
    let l2 = (nd2.0 * nd2.0 + nd2.1 * nd2.1 + nd2.2 * nd2.2).sqrt();
    assert_eq!(back(next.direction), (nd2.0 / l2, nd2.1 / l2, nd2.2 / l2));
    assert_eq!(back(next.position), (hit.0 + n.0 * 0.001, hit.1 + n.1 * 0.001, hit.2 + n.2 * 0.001));
    let m = |c: f64| (c * (1.0 - 1.0) + 1.0 * 1.0) * (1.0 - 0.1);
    assert_eq!(back(next.color), (m(0.9), m(0.5), m(0.1)));
}

use pathtracer::camera::{scene_x, scene_y, Camera};

#[test]
fn camera_basis_for_looking_ahead() {
    let camera = Camera::new(v(0.0, 0.2, -3.0), v(0.0, 0.0, 1.0));
    assert_eq!(back(camera.target), (0.0, 0.2, -2.0));
    assert_eq!(back(camera.right), (1.0, 0.0, 0.0));
    assert_eq!(back(camera.up), (0.0, 1.0, 0.0));
    assert_eq!(back(camera.direction(b(0.0), b(0.0))), (0.0, 0.0, 1.0));
}

#[test]
fn camera_direction_matches_native() {
    let camera = Camera::new(v(0.0, 0.2, -3.0), v(0.0, 0.0, 1.0));
    let (sx, sy): (f64, f64) = (0.123, -0.25);
    let t: (f64, f64, f64) = (0.0 + 1.0 * sx + 0.0 * sy, (0.2 + 0.0 * sx) + 1.0 * sy, -2.0 + 0.0 * sx + 0.0 * sy);
    let d = (t.0 - 0.0, t.1 - 0.2, t.2 - -3.0);
    let l = (d.0 * d.0 + d.1 * d.1 + d.2 * d.2).sqrt();
    assert_eq!(back(camera.direction(b(sx), b(sy))), (d.0 / l, d.1 / l, d.2 / l));
}

#[test]
fn pixel_coordinates_in_the_image_plane() {
    let (width, height) = (960u64, 540u64);
    for &(x, y, jx, jy) in [(0u64, 0u64, 0.0f64, 0.0f64), (480, 270, 0.0005, 0.0003), (959, 539, 0.001, 0.0)].iter() {
        let ex = (x as f64 - width as f64 / 2.0) / width as f64 + jx;
        let ey = -(y as f64 - height as f64 / 2.0) / width as f64 + jy;
        assert_eq!(scene_x(x, width, b(jx)), b(ex));
        assert_eq!(scene_y(y, width, height, b(jy)), b(ey));
    }
    assert_eq!(f(scene_x(0, 960, b(0.0))), -0.5);
    assert_eq!(f(scene_y(0, 960, 540, b(0.0))), 270.0 / 960.0);
}
