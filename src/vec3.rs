use vstd::prelude::*;
use crate::scalar::Scalar;
use crate::vector::Vector;

verus! {

/// A point or direction in three-dimensional space.
#[derive(Debug, Copy, Clone)]
pub struct Vec3<T: Scalar> {
    pub x: T,
    pub y: T,
    pub z: T,
}

impl<T: Scalar> Vec3<T> {
    pub open spec fn spec_new(x: T, y: T, z: T) -> Vec3<T> {
        Vec3 { x, y, z }
    }

    /// The sum of the squared components.
    pub open spec fn len_sqr_spec(self) -> T {
        T::add_spec(
            T::add_spec(T::mul_spec(self.x, self.x), T::mul_spec(self.y, self.y)),
            T::mul_spec(self.z, self.z),
        )
    }

    /// Each component divided by `len`.
    pub open spec fn scaled_down_spec(self, len: T) -> Vec3<T> {
        Vec3 { x: T::div_spec(self.x, len), y: T::div_spec(self.y, len), z: T::div_spec(self.z, len) }
    }

    /// `(y1*z2 - z1*y2, z1*x2 - x1*z2, x1*y2 - y1*x2)`.
    pub open spec fn cross_spec(self, v: Vec3<T>) -> Vec3<T> {
        Vec3 {
            x: T::sub_spec(T::mul_spec(self.y, v.z), T::mul_spec(self.z, v.y)),
            y: T::sub_spec(T::mul_spec(self.z, v.x), T::mul_spec(self.x, v.z)),
            z: T::sub_spec(T::mul_spec(self.x, v.y), T::mul_spec(self.y, v.x)),
        }
    }

    pub open spec fn sum_spec(self, v: Vec3<T>) -> Vec3<T> {
        Vec3 { x: T::add_spec(self.x, v.x), y: T::add_spec(self.y, v.y), z: T::add_spec(self.z, v.z) }
    }

    pub open spec fn negation_spec(self) -> Vec3<T> {
        Vec3 { x: T::neg_spec(self.x), y: T::neg_spec(self.y), z: T::neg_spec(self.z) }
    }

    /// Subtraction is the sum with the negated operand.
    pub open spec fn difference_spec(self, v: Vec3<T>) -> Vec3<T> {
        self.sum_spec(v.negation_spec())
    }

    pub open spec fn scale_spec(self, s: T) -> Vec3<T> {
        Vec3 { x: T::mul_spec(self.x, s), y: T::mul_spec(self.y, s), z: T::mul_spec(self.z, s) }
    }

    pub fn new(x: T, y: T, z: T) -> (r: Vec3<T>)
        ensures
            r == Self::spec_new(x, y, z),
    {
        Vec3 { x: x, y: y, z: z }
    }

    pub fn cross(&self, v: Vec3<T>) -> (r: Vec3<T>)
        ensures
            r == self.cross_spec(v),
    {
        Vec3::new(
            self.y.times(v.z).minus(self.z.times(v.y)),
            self.z.times(v.x).minus(self.x.times(v.z)),
            self.x.times(v.y).minus(self.y.times(v.x)),
        )
    }
}

impl<T: Scalar> Vector<T> for Vec3<T> {
    type Output = Vec3<T>;

    open spec fn length_ok(&self) -> bool {
        T::sqrt_ok(self.len_sqr_spec())
    }

    open spec fn length_spec(&self) -> T {
        T::sqrt_spec(self.len_sqr_spec())
    }

    open spec fn normalize_ok(&self) -> bool {
        let len = self.length_spec();
        &&& self.length_ok()
        &&& T::div_ok(self.x, len)
        &&& T::div_ok(self.y, len)
        &&& T::div_ok(self.z, len)
    }

    open spec fn normalized_spec(&self) -> Vec3<T> {
        self.scaled_down_spec(self.length_spec())
    }

    open spec fn normalize_spec(&self) -> Vec3<T> {
        self.normalized_spec()
    }

    open spec fn dot_spec(&self, v: &Vec3<T>) -> T {
        T::add_spec(T::add_spec(T::mul_spec(self.x, v.x), T::mul_spec(self.y, v.y)), T::mul_spec(self.z, v.z))
    }

    fn length(&self) -> (r: T) {
        let len_sqr = self.x.times(self.x).plus(self.y.times(self.y)).plus(self.z.times(self.z));
        len_sqr.root()
    }

    fn normalize(&mut self) -> () {
        let length = self.length();
        self.x = self.x.divide(length);
        self.y = self.y.divide(length);
        self.z = self.z.divide(length);
    }

    fn normalized(&self) -> (r: Vec3<T>) {
        let mut ret = Vec3::new(self.x, self.y, self.z);
        ret.normalize();
        ret
    }

    fn dot(&self, v: &Vec3<T>) -> (r: T) {
        self.x.times(v.x).plus(self.y.times(v.y)).plus(self.z.times(v.z))
    }
}

impl<T: Scalar> Vec3<T> {
    /// Adds `other` component-wise, in place.
    pub fn add_assign(&mut self, other: Vec3<T>)
        ensures
            *final(self) == old(self).sum_spec(other),
    {
        self.x = self.x.plus(other.x);
        self.y = self.y.plus(other.y);
        self.z = self.z.plus(other.z);
    }

    /// Subtracts `other` component-wise, in place.
    pub fn sub_assign(&mut self, other: Vec3<T>)
        ensures
            final(self).x == T::sub_spec(old(self).x, other.x),
            final(self).y == T::sub_spec(old(self).y, other.y),
            final(self).z == T::sub_spec(old(self).z, other.z),
    {
        self.x = self.x.minus(other.x);
        self.y = self.y.minus(other.y);
        self.z = self.z.minus(other.z);
    }
}

impl<T: Scalar> core::ops::AddAssign for Vec3<T> {
    fn add_assign(&mut self, other: Vec3<T>) {
        Vec3::add_assign(self, other);
    }
}

impl<T: Scalar> core::ops::SubAssign for Vec3<T> {
    fn sub_assign(&mut self, other: Vec3<T>) {
        Vec3::sub_assign(self, other);
    }
}

impl<T: Scalar> core::ops::Add for Vec3<T> {
    type Output = Vec3<T>;

    fn add(self, other: Vec3<T>) -> (r: Vec3<T>) {
        Vec3::new(self.x.plus(other.x), self.y.plus(other.y), self.z.plus(other.z))
    }
}

impl<T: Scalar> vstd::std_specs::ops::AddSpecImpl for Vec3<T> {
    open spec fn obeys_add_spec() -> bool {
        true
    }

    open spec fn add_req(self, other: Vec3<T>) -> bool {
        true
    }

    open spec fn add_spec(self, other: Vec3<T>) -> Vec3<T> {
        self.sum_spec(other)
    }
}

impl<T: Scalar> core::ops::Neg for Vec3<T> {
    type Output = Vec3<T>;

    fn neg(self) -> (r: Vec3<T>) {
        Vec3::new(self.x.negate(), self.y.negate(), self.z.negate())
    }
}

impl<T: Scalar> vstd::std_specs::ops::NegSpecImpl for Vec3<T> {
    open spec fn obeys_neg_spec() -> bool {
        true
    }

    open spec fn neg_req(self) -> bool {
        true
    }

    open spec fn neg_spec(self) -> Vec3<T> {
        self.negation_spec()
    }
}

impl<T: Scalar> core::ops::Sub for Vec3<T> {
    type Output = Vec3<T>;

    fn sub(self, other: Vec3<T>) -> (r: Vec3<T>) {
        core::ops::Add::add(self, core::ops::Neg::neg(other))
    }
}

impl<T: Scalar> vstd::std_specs::ops::SubSpecImpl for Vec3<T> {
    open spec fn obeys_sub_spec() -> bool {
        true
    }

    open spec fn sub_req(self, other: Vec3<T>) -> bool {
        true
    }

    open spec fn sub_spec(self, other: Vec3<T>) -> Vec3<T> {
        self.difference_spec(other)
    }
}

/// Scales every component by one scalar: `(x*s, y*s, z*s)`.
impl<T: Scalar> core::ops::Mul<T> for Vec3<T> {
    type Output = Vec3<T>;

    fn mul(self, other: T) -> (r: Vec3<T>) {
        Vec3::new(self.x.times(other), self.y.times(other), self.z.times(other))
    }
}

impl<T: Scalar> vstd::std_specs::ops::MulSpecImpl<T> for Vec3<T> {
    open spec fn obeys_mul_spec() -> bool {
        true
    }

    open spec fn mul_req(self, other: T) -> bool {
        true
    }

    open spec fn mul_spec(self, other: T) -> Vec3<T> {
        self.scale_spec(other)
    }
}

} // verus!
