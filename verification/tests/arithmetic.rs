use pathtracer::binary64::{abs, eq, lt, min, nan, neg, INFINITY, NEG_ONE, ONE, ZERO};
use pathtracer::vector::Vector;

fn b(x: f64) -> u64 {
    x.to_bits()
}

fn f(x: u64) -> f64 {
    f64::from_bits(x)
}

fn v(x: f64, y: f64, z: f64) -> Vector {
    Vector::new(b(x), b(y), b(z))
}

fn same_bits(a: Vector, x: f64, y: f64, z: f64) {
    assert_eq!(a.x, b(x));
    assert_eq!(a.y, b(y));
    assert_eq!(a.z, b(z));
}

const SAMPLES: [f64; 14] = [
    0.0, -0.0, 1.0, -1.0, 0.5, -2.25, 1.0e-300, -3.5e300, 7.0, 123456.789, -0.001,
    f64::INFINITY, f64::NEG_INFINITY, f64::MIN_POSITIVE,
];

#[test]
fn constants_are_the_expected_values() {
    assert_eq!(f(ZERO), 0.0);
    assert_eq!(f(ONE), 1.0);
    assert_eq!(f(NEG_ONE), -1.0);
    assert_eq!(f(INFINITY), f64::INFINITY);
}

#[test]
fn comparisons_match_native() {
    let mut all: Vec<f64> = SAMPLES.to_vec();
    all.push(f64::NAN);
    all.push(-f64::NAN);
    for &a in all.iter() {
        assert_eq!(nan(b(a)), a.is_nan());
        assert_eq!(abs(b(a)), a.abs().to_bits());
        assert_eq!(neg(b(a)), (-a).to_bits());
        for &c in all.iter() {
            assert_eq!(lt(b(a), b(c)), a < c, "{} < {}", a, c);
            assert_eq!(eq(b(a), b(c)), a == c, "{} == {}", a, c);
        }
    }
}

#[test]
fn min_matches_native() {
    for &a in SAMPLES.iter() {
        for &c in SAMPLES.iter() {
            if a == 0.0 && c == 0.0 {
                continue;
            }
            assert_eq!(min(b(a), b(c)), a.min(c).to_bits(), "min({}, {})", a, c);
        }
        assert_eq!(min(b(a), b(f64::NAN)), b(a));
        assert_eq!(min(b(f64::NAN), b(a)), b(a));
    }
}

#[test]
fn min_of_zeros_keeps_first() {
    assert_eq!(min(b(0.0), b(-0.0)), b(0.0));
    assert_eq!(min(b(-0.0), b(0.0)), b(-0.0));
}

#[test]
fn vector_arithmetic_is_bit_exact() {
    let finite: Vec<f64> = SAMPLES.iter().copied().filter(|x| x.is_finite()).collect();
    for &x in finite.iter() {
        for &y in finite.iter() {
            let a = v(x, y, 0.1);
            let c = v(y, 0.3, x);
            same_bits(a.add(c), x + y, y + 0.3, 0.1 + x);
            same_bits(a.sub(c), x - y, y - 0.3, 0.1 - x);
            same_bits(a.scale(b(y)), x * y, y * y, 0.1 * y);
            if y != 0.0 {
                same_bits(a.divide(b(y)), x / y, y / y, 0.1 / y);
            }
            assert_eq!(a.dot(c), (x * y + y * 0.3 + 0.1 * x).to_bits());
        }
    }
}

#[test]
fn length_and_normalize_are_bit_exact() {
    let cases = [(3.0, 4.0, 12.0), (0.1, 0.2, 0.3), (-5.5, 1.0e-3, 2.0e10), (1.0, 1.0, 1.0)];
    for &(x, y, z) in cases.iter() {
        let a = v(x, y, z);
        let len2: f64 = x * x + y * y + z * z;
        let len = len2.sqrt();
        assert_eq!(a.length_squared(), len2.to_bits());
        assert_eq!(a.length(), len.to_bits());
        same_bits(a.normalize(), x / len, y / len, z / len);
    }
    assert_eq!(f(v(3.0, 4.0, 12.0).length()), 13.0);
}

#[test]
fn square_root_is_correctly_rounded() {
    for &x in [2.0f64, 3.0, 1.0e-310, 0.7, 1.0e300, 12345.6789].iter() {
        let a = v(x, 0.0, 0.0);
        assert_eq!(a.length(), (x * x).sqrt().to_bits(), "sqrt of {}^2", x);
    }
}

#[test]
fn same_follows_ieee_equality() {
    assert!(v(0.0, 1.0, 2.0).same(v(-0.0, 1.0, 2.0)));
    assert!(!v(f64::NAN, 1.0, 2.0).same(v(f64::NAN, 1.0, 2.0)));
    assert!(!v(1.0, 1.0, 2.0).same(v(1.0, 1.0, 2.5)));
}

#[test]
fn zero_and_one_vectors() {
    same_bits(Vector::zero(), 0.0, 0.0, 0.0);
    same_bits(Vector::one(), 1.0, 1.0, 1.0);
}
