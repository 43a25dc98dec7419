use vstd::prelude::*;

verus! {

/// What every vector type offers: its length, normalization in place and by
/// copy, and the dot product with a vector of the same kind.
///
/// `T` is the scalar type of the results. The spec functions give the exact
/// value of each operation; `length_ok` and `normalize_ok` say where the
/// scalar's square root and division are defined.
pub trait Vector<T = Self> {
    type Output;

    spec fn length_ok(&self) -> bool;

    spec fn length_spec(&self) -> T;

    spec fn normalize_ok(&self) -> bool;

    spec fn normalized_spec(&self) -> Self::Output;

    spec fn normalize_spec(&self) -> Self where Self: Sized;

    spec fn dot_spec(&self, v: &Self::Output) -> T;

    fn length(&self) -> (r: T)
        requires
            self.length_ok(),
        ensures
            r == self.length_spec(),
    ;

    fn normalize(&mut self)
        where Self: Sized
        requires
            old(self).normalize_ok(),
        ensures
            *final(self) == old(self).normalize_spec(),
    ;

    fn normalized(&self) -> (r: Self::Output)
        requires
            self.normalize_ok(),
        ensures
            r == self.normalized_spec(),
    ;

    fn dot(&self, v: &Self::Output) -> (r: T)
        ensures
            r == self.dot_spec(v),
    ;
}

} // verus!
