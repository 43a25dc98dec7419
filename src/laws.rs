//! Identities that relate the vector operations to one another.

use vstd::prelude::*;
use crate::scalar::{ExactScalar, Scalar};
use crate::vec3::Vec3;
use crate::vec4::Vec4;
use crate::vector::Vector;

verus! {

/// Normalizing a `Vec3` in place leaves it equal to the normalized copy of
/// its former value.
pub proof fn lemma_vec3_normalize_is_normalized<T: Scalar>(v: Vec3<T>)
    ensures
        v.normalize_spec() == v.normalized_spec(),
{
}

/// Normalizing a `Vec4` in place leaves it equal to the normalized copy of
/// its former value.
pub proof fn lemma_vec4_normalize_is_normalized<T: Scalar>(v: Vec4<T>)
    ensures
        v.normalize_spec() == v.normalized_spec(),
{
}

/// The dot product of two `Vec3`s does not depend on their order.
pub proof fn lemma_vec3_dot_commutes<T: ExactScalar>(a: Vec3<T>, b: Vec3<T>)
    ensures
        a.dot_spec(&b) == b.dot_spec(&a),
{
    T::lemma_mul_commutes(a.x, b.x);
    T::lemma_mul_commutes(a.y, b.y);
    T::lemma_mul_commutes(a.z, b.z);
}

/// The dot product of two `Vec4`s does not depend on their order.
pub proof fn lemma_vec4_dot_commutes<T: ExactScalar>(a: Vec4<T>, b: Vec4<T>)
    ensures
        a.dot_spec(&b) == b.dot_spec(&a),
{
    T::lemma_mul_commutes(a.x, b.x);
    T::lemma_mul_commutes(a.y, b.y);
    T::lemma_mul_commutes(a.z, b.z);
    T::lemma_mul_commutes(a.w, b.w);
}

/// Swapping the operands of the cross product negates it.
pub proof fn lemma_cross_anticommutes<T: ExactScalar>(a: Vec3<T>, b: Vec3<T>)
    ensures
        a.cross_spec(b) == b.cross_spec(a).negation_spec(),
{
    T::lemma_mul_commutes(a.y, b.z);
    T::lemma_mul_commutes(a.z, b.y);
    T::lemma_mul_commutes(a.z, b.x);
    T::lemma_mul_commutes(a.x, b.z);
    T::lemma_mul_commutes(a.x, b.y);
    T::lemma_mul_commutes(a.y, b.x);
    T::lemma_sub_antisymmetric(T::mul_spec(a.z, b.y), T::mul_spec(a.y, b.z));
    T::lemma_sub_antisymmetric(T::mul_spec(a.x, b.z), T::mul_spec(a.z, b.x));
    T::lemma_sub_antisymmetric(T::mul_spec(a.y, b.x), T::mul_spec(a.x, b.y));
}

/// The cross product of a vector with itself is the zero vector.
pub proof fn lemma_cross_self_is_zero<T: ExactScalar>(a: Vec3<T>)
    ensures
        a.cross_spec(a) == Vec3::spec_new(T::zero_spec(), T::zero_spec(), T::zero_spec()),
{
    T::lemma_mul_commutes(a.y, a.z);
    T::lemma_mul_commutes(a.z, a.x);
    T::lemma_mul_commutes(a.x, a.y);
    T::lemma_sub_self(T::mul_spec(a.y, a.z));
    T::lemma_sub_self(T::mul_spec(a.z, a.x));
    T::lemma_sub_self(T::mul_spec(a.x, a.y));
}

/// Subtracting a `Vec3` is adding its negation.
pub proof fn lemma_vec3_sub_is_add_neg<T: Scalar>(a: Vec3<T>, b: Vec3<T>)
    ensures
        a.difference_spec(b) == a.sum_spec(b.negation_spec()),
{
}

/// Subtracting a `Vec4` is adding its negation.
pub proof fn lemma_vec4_sub_is_add_neg<T: Scalar>(a: Vec4<T>, b: Vec4<T>)
    ensures
        a.difference_spec(b) == a.sum_spec(b.negation_spec()),
{
}

/// Adding a `Vec3` and then subtracting it again gives back the start.
pub proof fn lemma_vec3_add_sub_round_trip<T: ExactScalar>(a: Vec3<T>, b: Vec3<T>)
    ensures
        a.sum_spec(b).difference_spec(b) == a,
{
    T::lemma_add_neg_cancels(a.x, b.x);
    T::lemma_add_neg_cancels(a.y, b.y);
    T::lemma_add_neg_cancels(a.z, b.z);
}

/// Adding a `Vec4` and then subtracting it again gives back the start.
pub proof fn lemma_vec4_add_sub_round_trip<T: ExactScalar>(a: Vec4<T>, b: Vec4<T>)
    ensures
        a.sum_spec(b).difference_spec(b) == a,
{
    T::lemma_add_neg_cancels(a.x, b.x);
    T::lemma_add_neg_cancels(a.y, b.y);
    T::lemma_add_neg_cancels(a.z, b.z);
    T::lemma_add_neg_cancels(a.w, b.w);
}

} // verus!
