use vstd::prelude::*;

verus! {

/// The cross product of two values of a three-dimensional vector type.
pub trait Cross {
    fn cross(self, rhs: Self) -> Self;
}

/// Scaling a vector to unit length; undefined for a zero-length vector.
pub trait Normalize {
    fn normalize(self) -> Self;
}

} // verus!
