use rn_vec::{Scalar, Vec3, Vec4, Vector};

/// A double-precision scalar, to run the vectors on floating-point values.
#[derive(Debug, Clone, Copy, PartialEq)]
struct F64(f64);

impl Scalar for F64 {
    fn add_spec(a: F64, b: F64) -> F64 {
        F64(a.0 + b.0)
    }

    fn sub_spec(a: F64, b: F64) -> F64 {
        F64(a.0 - b.0)
    }

    fn mul_spec(a: F64, b: F64) -> F64 {
        F64(a.0 * b.0)
    }

    fn div_spec(a: F64, b: F64) -> F64 {
        F64(a.0 / b.0)
    }

    fn neg_spec(a: F64) -> F64 {
        F64(-a.0)
    }

    fn sqrt_spec(a: F64) -> F64 {
        F64(a.0.sqrt())
    }

    fn div_ok(_a: F64, _b: F64) -> bool {
        true
    }

    fn sqrt_ok(_a: F64) -> bool {
        true
    }

    fn plus(self, b: F64) -> F64 {
        F64::add_spec(self, b)
    }

    fn minus(self, b: F64) -> F64 {
        F64::sub_spec(self, b)
    }

    fn times(self, b: F64) -> F64 {
        F64::mul_spec(self, b)
    }

    fn divide(self, b: F64) -> F64 {
        F64::div_spec(self, b)
    }

    fn negate(self) -> F64 {
        F64::neg_spec(self)
    }

    fn root(self) -> F64 {
        F64::sqrt_spec(self)
    }
}

fn v3(x: i64, y: i64, z: i64) -> Vec3<i64> {
    Vec3::new(x, y, z)
}

fn f3(x: f64, y: f64, z: f64) -> Vec3<F64> {
    Vec3::new(F64(x), F64(y), F64(z))
}

fn parts3<T: Scalar>(v: Vec3<T>) -> (T, T, T) {
    (v.x, v.y, v.z)
}

fn parts4<T: Scalar>(v: Vec4<T>) -> (T, T, T, T) {
    (v.x, v.y, v.z, v.w)
}

#[test]
fn cross_of_unit_axes() {
    assert_eq!(parts3(v3(1, 0, 0).cross(v3(0, 1, 0))), (0, 0, 1));
    assert_eq!(parts3(v3(0, 1, 0).cross(v3(0, 0, 1))), (1, 0, 0));
}

#[test]
fn cross_formula() {
    assert_eq!(parts3(v3(1, 2, 3).cross(v3(4, 5, 6))), (-3, 6, -3));
}

#[test]
fn cross_swapped_is_negated() {
    let a = v3(2, -7, 5);
    let b = v3(-3, 4, 11);
    assert_eq!(parts3(a.cross(b)), parts3(-(b.cross(a))));
}

#[test]
fn cross_with_itself_is_zero() {
    assert_eq!(parts3(v3(3, -8, 13).cross(v3(3, -8, 13))), (0, 0, 0));
}

#[test]
fn cross_of_parallel_vectors_is_zero() {
    assert_eq!(parts3(v3(1, 2, 3).cross(v3(2, 4, 6))), (0, 0, 0));
}

#[test]
fn vec3_length_three_four_zero() {
    assert_eq!(v3(3, 4, 0).length(), 5);
}

#[test]
fn vec3_length_of_zero_vector() {
    assert_eq!(v3(0, 0, 0).length(), 0);
}

#[test]
fn vec3_integer_length_is_truncated() {
    assert_eq!(v3(1, 1, 1).length(), 1);
    assert_eq!(v3(2, 3, 6).length(), 7);
    assert_eq!(v3(2, 3, 7).length(), 7);
}

#[test]
fn vec4_length_one_two_two_zero() {
    assert_eq!(Vec4::new(1i64, 2, 2, 0).length(), 3);
}

#[test]
fn vec3_float_normalized_three_four_zero() {
    let v = f3(3.0, 4.0, 0.0);
    assert_eq!(v.length(), F64(5.0));
    assert_eq!(parts3(v.normalized()), (F64(0.6), F64(0.8), F64(0.0)));
}

#[test]
fn vec3_float_normalized_has_unit_length() {
    for v in [f3(1.0, 2.0, 3.0), f3(-0.5, 10.0, 7.25), f3(1e-3, 0.0, -2e-3)] {
        let len = v.normalized().length().0;
        assert!((len - 1.0).abs() < 1e-6);
    }
}

#[test]
fn vec4_float_normalized_has_unit_length() {
    let v = Vec4::new(F64(1.0), F64(-2.0), F64(3.5), F64(0.25));
    let len = v.normalized().length().0;
    assert!((len - 1.0).abs() < 1e-6);
}

#[test]
fn vec3_float_zero_normalized_is_nan() {
    let n = f3(0.0, 0.0, 0.0).normalized();
    assert!(n.x.0.is_nan());
    assert!(n.y.0.is_nan());
    assert!(n.z.0.is_nan());
}

#[test]
fn vec3_normalize_matches_normalized() {
    let mut v = f3(1.0, -2.0, 2.0);
    let copy = v.normalized();
    assert_eq!(parts3(v), (F64(1.0), F64(-2.0), F64(2.0)));
    v.normalize();
    assert_eq!(parts3(v), parts3(copy));
}

#[test]
fn vec4_normalize_matches_normalized() {
    let mut v = Vec4::new(F64(1.0), F64(2.0), F64(2.0), F64(4.0));
    let copy = v.normalized();
    v.normalize();
    assert_eq!(parts4(v), parts4(copy));
    assert_eq!(parts4(v), (F64(0.2), F64(0.4), F64(0.4), F64(0.8)));
}

#[test]
fn vec3_integer_normalize_divides_by_length() {
    let mut v = v3(0, 10, 0);
    v.normalize();
    assert_eq!(parts3(v), (0, 1, 0));
    assert_eq!(parts3(v3(3, 4, 0).normalized()), (0, 0, 0));
}

#[test]
fn vec3_dot_one_two_three() {
    assert_eq!(v3(1, 2, 3).dot(&v3(4, 5, 6)), 32);
}

#[test]
fn dot_commutes() {
    let a = v3(3, -1, 4);
    let b = v3(-2, 7, 5);
    assert_eq!(a.dot(&b), b.dot(&a));
    let c = Vec4::new(1i64, 2, 3, 4);
    let d = Vec4::new(-5i64, 6, 0, 2);
    assert_eq!(c.dot(&d), 15);
    assert_eq!(d.dot(&c), 15);
}

#[test]
fn dot_of_orthogonal_vectors_is_zero() {
    assert_eq!(v3(1, 2, 0).dot(&v3(-2, 1, 9)), 0);
}

#[test]
fn vec3_scalar_multiplication_scales_every_component() {
    assert_eq!(parts3(v3(1, 2, 3) * 2), (2, 4, 6));
    assert_eq!(parts3(f3(1.0, 2.0, 3.0) * F64(2.0)), (F64(2.0), F64(4.0), F64(6.0)));
}

#[test]
fn vec4_scalar_multiplication_scales_every_component() {
    assert_eq!(parts4(Vec4::new(1i64, 2, 3, 4) * -3), (-3, -6, -9, -12));
}

#[test]
fn vec3_add_and_neg() {
    assert_eq!(parts3(v3(1, 2, 3) + v3(10, 20, 30)), (11, 22, 33));
    assert_eq!(parts3(-v3(1, -2, 3)), (-1, 2, -3));
}

#[test]
fn vec3_sub_is_add_of_negation() {
    let a = v3(5, 1, -4);
    let b = v3(2, 8, 3);
    assert_eq!(parts3(a - b), (3, -7, -7));
    assert_eq!(parts3(a - b), parts3(a + -b));
}

#[test]
fn vec4_add_sub_neg() {
    let a = Vec4::new(1i64, 2, 3, 4);
    let b = Vec4::new(10i64, 20, 30, 40);
    assert_eq!(parts4(a + b), (11, 22, 33, 44));
    assert_eq!(parts4(a - b), (-9, -18, -27, -36));
    assert_eq!(parts4(a - b), parts4(a + -b));
    assert_eq!(parts4(-a), (-1, -2, -3, -4));
}

#[test]
fn add_then_sub_round_trip() {
    let a = v3(7, -3, 12);
    let b = v3(-100, 55, 9);
    assert_eq!(parts3(a + b - b), parts3(a));
    let c = Vec4::new(i64::MAX, 1, -1, 0);
    let d = Vec4::new(1i64, i64::MIN, 5, 6);
    assert_eq!(parts4(c + d - d), parts4(c));
    let f = f3(0.1, 0.2, 0.3);
    let g = f3(1.5, -2.25, 3.0);
    let back = f + g - g;
    assert!((back.x.0 - 0.1).abs() < 1e-12);
    assert!((back.y.0 - 0.2).abs() < 1e-12);
    assert!((back.z.0 - 0.3).abs() < 1e-12);
}

#[test]
fn compound_assignment_operators() {
    let mut a = v3(1, 2, 3);
    a += v3(1, 1, 1);
    assert_eq!(parts3(a), (2, 3, 4));
    a -= v3(5, 0, -1);
    assert_eq!(parts3(a), (-3, 3, 5));
    let mut b = Vec4::new(1i64, 2, 3, 4);
    b += Vec4::new(4i64, 3, 2, 1);
    assert_eq!(parts4(b), (5, 5, 5, 5));
    b -= Vec4::new(5i64, 6, 7, 8);
    assert_eq!(parts4(b), (0, -1, -2, -3));
}

#[test]
fn integer_components_wrap_around() {
    assert_eq!(parts3(v3(i64::MAX, 0, 0) + v3(1, 0, 0)), (i64::MIN, 0, 0));
    assert_eq!(parts3(-v3(i64::MIN, 0, 0)), (i64::MIN, 0, 0));
}

#[test]
fn integer_scalar_operations() {
    assert_eq!(7i64.divide(-2), -3);
    assert_eq!(26i64.root(), 5);
    assert_eq!(0i64.root(), 0);
    assert_eq!(i64::MAX.root(), 3037000499);
}
