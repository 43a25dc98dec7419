use vstd::prelude::*;
use crate::scalar::Scalar;
use crate::vector::Vector;

verus! {

/// A four-component vector, such as homogeneous coordinates or a colour with
/// alpha.
#[derive(Debug, Copy, Clone)]
pub struct Vec4<T: Scalar> {
    pub x: T,
    pub y: T,
    pub z: T,
    pub w: T,
}

impl<T: Scalar> Vec4<T> {
    pub open spec fn spec_new(x: T, y: T, z: T, w: T) -> Vec4<T> {
        Vec4 { x, y, z, w }
    }

    /// The sum of the squared components.
    pub open spec fn len_sqr_spec(self) -> T {
        T::add_spec(
            T::add_spec(
                T::add_spec(T::mul_spec(self.x, self.x), T::mul_spec(self.y, self.y)),
                T::mul_spec(self.z, self.z),
            ),
            T::mul_spec(self.w, self.w),
        )
    }

    /// Each component divided by `len`.
    pub open spec fn scaled_down_spec(self, len: T) -> Vec4<T> {
        Vec4 {
            x: T::div_spec(self.x, len),
            y: T::div_spec(self.y, len),
            z: T::div_spec(self.z, len),
            w: T::div_spec(self.w, len),
        }
    }

    pub open spec fn sum_spec(self, v: Vec4<T>) -> Vec4<T> {
        Vec4 {
            x: T::add_spec(self.x, v.x),
            y: T::add_spec(self.y, v.y),
            z: T::add_spec(self.z, v.z),
            w: T::add_spec(self.w, v.w),
        }
    }

    pub open spec fn negation_spec(self) -> Vec4<T> {
        Vec4 { x: T::neg_spec(self.x), y: T::neg_spec(self.y), z: T::neg_spec(self.z), w: T::neg_spec(self.w) }
    }

    /// Subtraction is the sum with the negated operand.
    pub open spec fn difference_spec(self, v: Vec4<T>) -> Vec4<T> {
        self.sum_spec(v.negation_spec())
    }

    pub open spec fn scale_spec(self, s: T) -> Vec4<T> {
        Vec4 {
            x: T::mul_spec(self.x, s),
            y: T::mul_spec(self.y, s),
            z: T::mul_spec(self.z, s),
            w: T::mul_spec(self.w, s),
        }
    }

    pub fn new(x: T, y: T, z: T, w: T) -> (r: Vec4<T>)
        ensures
            r == Self::spec_new(x, y, z, w),
    {
        Vec4 { x: x, y: y, z: z, w: w }
    }

    /// Adds `other` component-wise, in place.
    pub fn add_assign(&mut self, other: Vec4<T>)
        ensures
            *final(self) == old(self).sum_spec(other),
    {
        self.x = self.x.plus(other.x);
        self.y = self.y.plus(other.y);
        self.z = self.z.plus(other.z);
        self.w = self.w.plus(other.w);
    }

    /// Subtracts `other` component-wise, in place.
    pub fn sub_assign(&mut self, other: Vec4<T>)
        ensures
            final(self).x == T::sub_spec(old(self).x, other.x),
            final(self).y == T::sub_spec(old(self).y, other.y),
            final(self).z == T::sub_spec(old(self).z, other.z),
            final(self).w == T::sub_spec(old(self).w, other.w),
    {
        self.x = self.x.minus(other.x);
        self.y = self.y.minus(other.y);
        self.z = self.z.minus(other.z);
        self.w = self.w.minus(other.w);
    }
}

impl<T: Scalar> Vector<T> for Vec4<T> {
    type Output = Vec4<T>;

    open spec fn length_ok(&self) -> bool {
        T::sqrt_ok(self.len_sqr_spec())
    }

    open spec fn length_spec(&self) -> T {
        T::sqrt_spec(self.len_sqr_spec())
    }

    open spec fn normalize_ok(&self) -> bool {
        let len = self.length_spec();
        &&& self.length_ok()
        &&& T::div_ok(self.x, len)
        &&& T::div_ok(self.y, len)
        &&& T::div_ok(self.z, len)
        &&& T::div_ok(self.w, len)
    }

    open spec fn normalized_spec(&self) -> Vec4<T> {
        self.scaled_down_spec(self.length_spec())
    }

    open spec fn normalize_spec(&self) -> Vec4<T> {
        self.normalized_spec()
    }

    open spec fn dot_spec(&self, v: &Vec4<T>) -> T {
        T::add_spec(
            T::add_spec(T::add_spec(T::mul_spec(self.x, v.x), T::mul_spec(self.y, v.y)), T::mul_spec(self.z, v.z)),
            T::mul_spec(self.w, v.w),
        )
    }

    fn length(&self) -> (r: T) {
        let len_sqr = self.x.times(self.x).plus(self.y.times(self.y)).plus(self.z.times(self.z)).plus(
            self.w.times(self.w),
        );
        len_sqr.root()
    }

    fn normalize(&mut self) {
        let length = self.length();
        self.x = self.x.divide(length);
        self.y = self.y.divide(length);
        self.z = self.z.divide(length);
        self.w = self.w.divide(length);
    }

    fn normalized(&self) -> (r: Vec4<T>) {
        let mut ret = Vec4::new(self.x, self.y, self.z, self.w);
        ret.normalize();
        ret
    }

    fn dot(&self, v: &Vec4<T>) -> (r: T) {
        self.x.times(v.x).plus(self.y.times(v.y)).plus(self.z.times(v.z)).plus(self.w.times(v.w))
    }
}

impl<T: Scalar> core::ops::AddAssign for Vec4<T> {
    fn add_assign(&mut self, other: Vec4<T>) {
        Vec4::add_assign(self, other);
    }
}

impl<T: Scalar> core::ops::SubAssign for Vec4<T> {
    fn sub_assign(&mut self, other: Vec4<T>) {
        Vec4::sub_assign(self, other);
    }
}

impl<T: Scalar> core::ops::Add for Vec4<T> {
    type Output = Vec4<T>;

    fn add(self, other: Vec4<T>) -> (r: Vec4<T>) {
        Vec4::new(self.x.plus(other.x), self.y.plus(other.y), self.z.plus(other.z), self.w.plus(other.w))
    }
}

impl<T: Scalar> vstd::std_specs::ops::AddSpecImpl for Vec4<T> {
    open spec fn obeys_add_spec() -> bool {
        true
    }

    open spec fn add_req(self, other: Vec4<T>) -> bool {
        true
    }

    open spec fn add_spec(self, other: Vec4<T>) -> Vec4<T> {
        self.sum_spec(other)
    }
}

impl<T: Scalar> core::ops::Neg for Vec4<T> {
    type Output = Vec4<T>;

    fn neg(self) -> (r: Vec4<T>) {
        Vec4::new(self.x.negate(), self.y.negate(), self.z.negate(), self.w.negate())
    }
}

impl<T: Scalar> vstd::std_specs::ops::NegSpecImpl for Vec4<T> {
    open spec fn obeys_neg_spec() -> bool {
        true
    }

    open spec fn neg_req(self) -> bool {
        true
    }

    open spec fn neg_spec(self) -> Vec4<T> {
        self.negation_spec()
    }
}

impl<T: Scalar> core::ops::Sub for Vec4<T> {
    type Output = Vec4<T>;

    fn sub(self, other: Vec4<T>) -> (r: Vec4<T>) {
        core::ops::Add::add(self, core::ops::Neg::neg(other))
    }
}

impl<T: Scalar> vstd::std_specs::ops::SubSpecImpl for Vec4<T> {
    open spec fn obeys_sub_spec() -> bool {
        true
    }

    open spec fn sub_req(self, other: Vec4<T>) -> bool {
        true
    }

    open spec fn sub_spec(self, other: Vec4<T>) -> Vec4<T> {
        self.difference_spec(other)
    }
}

/// Scales every component by one scalar: `(x*s, y*s, z*s, w*s)`.
impl<T: Scalar> core::ops::Mul<T> for Vec4<T> {
    type Output = Vec4<T>;

    fn mul(self, other: T) -> (r: Vec4<T>) {
        Vec4::new(self.x.times(other), self.y.times(other), self.z.times(other), self.w.times(other))
    }
}

impl<T: Scalar> vstd::std_specs::ops::MulSpecImpl<T> for Vec4<T> {
    open spec fn obeys_mul_spec() -> bool {
        true
    }

    open spec fn mul_req(self, other: T) -> bool {
        true
    }

    open spec fn mul_spec(self, other: T) -> Vec4<T> {
        self.scale_spec(other)
    }
}

} // verus!
