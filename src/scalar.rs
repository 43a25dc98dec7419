use vstd::prelude::*;
use num::integer::Roots;

verus! {

/// The arithmetic that a vector component type provides.
///
/// Each operation is described by a spec function, so that the vector
/// operations can state their results exactly, whatever the component type.
/// Division and square root may be partial: `div_ok` and `sqrt_ok` say where
/// they are defined.
pub trait Scalar: Copy + Sized {
    spec fn add_spec(a: Self, b: Self) -> Self;

    spec fn sub_spec(a: Self, b: Self) -> Self;

    spec fn mul_spec(a: Self, b: Self) -> Self;

    spec fn div_spec(a: Self, b: Self) -> Self;

    spec fn neg_spec(a: Self) -> Self;

    spec fn sqrt_spec(a: Self) -> Self;

    spec fn div_ok(a: Self, b: Self) -> bool;

    spec fn sqrt_ok(a: Self) -> bool;

    fn plus(self, b: Self) -> (r: Self)
        ensures
            r == Self::add_spec(self, b),
    ;

    fn minus(self, b: Self) -> (r: Self)
        ensures
            r == Self::sub_spec(self, b),
    ;

    fn times(self, b: Self) -> (r: Self)
        ensures
            r == Self::mul_spec(self, b),
    ;

    fn divide(self, b: Self) -> (r: Self)
        requires
            Self::div_ok(self, b),
        ensures
            r == Self::div_spec(self, b),
    ;

    fn negate(self) -> (r: Self)
        ensures
            r == Self::neg_spec(self),
    ;

    fn root(self) -> (r: Self)
        requires
            Self::sqrt_ok(self),
        ensures
            r == Self::sqrt_spec(self),
    ;
}

/// A scalar type whose addition, subtraction and multiplication obey the
/// ring laws exactly (no rounding), which the vector identities rest on.
pub trait ExactScalar: Scalar {
    spec fn zero_spec() -> Self;

    proof fn lemma_mul_commutes(a: Self, b: Self)
        ensures
            Self::mul_spec(a, b) == Self::mul_spec(b, a),
    ;

    proof fn lemma_sub_antisymmetric(a: Self, b: Self)
        ensures
            Self::neg_spec(Self::sub_spec(a, b)) == Self::sub_spec(b, a),
    ;

    proof fn lemma_sub_self(a: Self)
        ensures
            Self::sub_spec(a, a) == Self::zero_spec(),
    ;

    proof fn lemma_add_neg_cancels(a: Self, b: Self)
        ensures
            Self::add_spec(Self::add_spec(a, b), Self::neg_spec(b)) == a,
    ;
}

/// The truncated square root of a non-negative integer: the `r >= 0` with
/// `r * r <= x < (r + 1) * (r + 1)`.
pub open spec fn is_floor_sqrt(x: int, r: int) -> bool {
    0 <= r && r * r <= x && x < (r + 1) * (r + 1)
}

pub open spec fn floor_sqrt(x: int) -> int {
    choose|r: int| is_floor_sqrt(x, r)
}

proof fn lemma_floor_sqrt_unique(x: int, r: int, s: int)
    requires
        is_floor_sqrt(x, r),
        is_floor_sqrt(x, s),
    ensures
        r == s,
{
    if r < s {
        assert((r + 1) * (r + 1) <= s * s) by (nonlinear_arith)
            requires
                0 <= r,
                r + 1 <= s,
        ;
    } else if s < r {
        assert((s + 1) * (s + 1) <= r * r) by (nonlinear_arith)
            requires
                0 <= s,
                s + 1 <= r,
        ;
    }
}

/// Relies on `num::integer::Roots::sqrt` for `i64`: the truncated square root
/// `r` with `r * r <= x < (r + 1) * (r + 1)`. It panics on a negative input.
#[verifier::external_body]
fn i64_sqrt(x: i64) -> (r: i64)
    requires
        x >= 0,
    ensures
        is_floor_sqrt(x as int, r as int),
{
    Roots::sqrt(&x)
}

/// Two's-complement integers: `+`, `-`, `*` and negation wrap around,
/// division truncates toward zero, and the square root is truncated.
impl Scalar for i64 {
    open spec fn add_spec(a: i64, b: i64) -> i64 {
        vstd::wrapping::i64_specs::wrapping_add(a, b)
    }

    open spec fn sub_spec(a: i64, b: i64) -> i64 {
        vstd::wrapping::i64_specs::wrapping_sub(a, b)
    }

    open spec fn mul_spec(a: i64, b: i64) -> i64 {
        vstd::wrapping::i64_specs::wrapping_mul(a, b)
    }

    open spec fn div_spec(a: i64, b: i64) -> i64 {
        a.checked_div(b).unwrap()
    }

    open spec fn neg_spec(a: i64) -> i64 {
        vstd::wrapping::i64_specs::wrapping_sub(0, a)
    }

    open spec fn sqrt_spec(a: i64) -> i64 {
        floor_sqrt(a as int) as i64
    }

    open spec fn div_ok(a: i64, b: i64) -> bool {
        a.checked_div(b).is_some()
    }

    open spec fn sqrt_ok(a: i64) -> bool {
        a >= 0
    }

    fn plus(self, b: i64) -> (r: i64) {
        self.wrapping_add(b)
    }

    fn minus(self, b: i64) -> (r: i64) {
        self.wrapping_sub(b)
    }

    fn times(self, b: i64) -> (r: i64) {
        self.wrapping_mul(b)
    }

    fn divide(self, b: i64) -> (r: i64) {
        self.checked_div(b).unwrap()
    }

    fn negate(self) -> (r: i64) {
        0i64.wrapping_sub(self)
    }

    fn root(self) -> (r: i64) {
        let r = i64_sqrt(self);
        proof {
            lemma_floor_sqrt_unique(self as int, r as int, floor_sqrt(self as int));
        }
        r
    }
}

impl ExactScalar for i64 {
    open spec fn zero_spec() -> i64 {
        0
    }

    proof fn lemma_mul_commutes(a: i64, b: i64) {
        assert(a as int * b as int == b as int * a as int) by (nonlinear_arith);
    }

    proof fn lemma_sub_antisymmetric(a: i64, b: i64) {
    }

    proof fn lemma_sub_self(a: i64) {
    }

    proof fn lemma_add_neg_cancels(a: i64, b: i64) {
    }
}

} // verus!
