//! Two-dimensional vectors over any scalar type.

use vstd::prelude::*;
use vstd::std_specs::convert::FromSpecImpl;
use vstd::std_specs::ops::{AddSpec, SubSpec, MulSpec, DivSpec};
use crate::scalar::{exact, root, root_exact, safe, safe_with, spec_root, Scalar};

verus! {

/// A mathematical vector with two coordinates: a point, an offset, a velocity
/// or a force.
#[derive(Debug, PartialEq)]
pub struct Vector2<S> {
    /// X coordinate of the vector.
    pub x: S,
    /// Y coordinate of the vector.
    pub y: S,
}

impl<S: Copy> Clone for Vector2<S> {
    fn clone(&self) -> (v: Self)
        ensures
            v == *self,
    {
        *self
    }
}

impl<S: Copy> Copy for Vector2<S> {

}

impl<S> From<(S, S)> for Vector2<S> {
    /// Constructs a `Vector2` from `(x, y)`.
    fn from(src: (S, S)) -> (v: Self) {
        Vector2 { x: src.0, y: src.1 }
    }
}

impl<S> FromSpecImpl<(S, S)> for Vector2<S> {
    open spec fn obeys_from_spec() -> bool {
        true
    }

    open spec fn from_spec(src: (S, S)) -> Self {
        Vector2 { x: src.0, y: src.1 }
    }
}

impl<S: Scalar> Vector2<S> {
    /// Component-wise sum.
    pub open spec fn spec_plus(self, rhs: Self) -> Self {
        Vector2 { x: self.x.add_spec(rhs.x), y: self.y.add_spec(rhs.y) }
    }

    /// Component-wise difference.
    pub open spec fn spec_minus(self, rhs: Self) -> Self {
        Vector2 { x: self.x.sub_spec(rhs.x), y: self.y.sub_spec(rhs.y) }
    }

    /// Each coordinate multiplied by `k`.
    pub open spec fn spec_times(self, k: S) -> Self {
        Vector2 { x: self.x.mul_spec(k), y: self.y.mul_spec(k) }
    }

    /// Each coordinate divided by `k`.
    pub open spec fn spec_over(self, k: S) -> Self {
        Vector2 { x: self.x.div_spec(k), y: self.y.div_spec(k) }
    }

    /// Square of the vector's length: `x * x + y * y`.
    pub open spec fn spec_length_sq(self) -> S {
        self.x.mul_spec(self.x).add_spec(self.y.mul_spec(self.y))
    }

    /// The sum with `rhs` can be computed.
    pub open spec fn can_plus(self, rhs: Self) -> bool {
        self.x.add_req(rhs.x) && self.y.add_req(rhs.y)
    }

    /// The difference to `rhs` can be computed.
    pub open spec fn can_minus(self, rhs: Self) -> bool {
        self.x.sub_req(rhs.x) && self.y.sub_req(rhs.y)
    }

    /// The product with `k` can be computed.
    pub open spec fn can_times(self, k: S) -> bool {
        self.x.mul_req(k) && self.y.mul_req(k)
    }

    /// The quotient by `k` can be computed.
    pub open spec fn can_over(self, k: S) -> bool {
        self.x.div_req(k) && self.y.div_req(k)
    }

    /// The squared length can be computed.
    pub open spec fn can_length_sq(self) -> bool {
        &&& self.x.mul_req(self.x)
        &&& self.y.mul_req(self.y)
        &&& self.x.mul_spec(self.x).add_req(self.y.mul_spec(self.y))
    }

    /// Creates a new vector from its coordinates.
    pub fn new(x: S, y: S) -> (v: Self)
        ensures
            v == (Vector2 { x, y }),
    {
        Vector2 { x, y }
    }

    /// Component-wise sum.
    pub fn plus(self, rhs: Self) -> (v: Self)
        requires
            self.can_plus(rhs),
        ensures
            exact::<S>() ==> v == self.spec_plus(rhs),
    {
        Vector2 { x: self.x + rhs.x, y: self.y + rhs.y }
    }

    /// Component-wise difference.
    pub fn minus(self, rhs: Self) -> (v: Self)
        requires
            self.can_minus(rhs),
        ensures
            exact::<S>() ==> v == self.spec_minus(rhs),
    {
        Vector2 { x: self.x - rhs.x, y: self.y - rhs.y }
    }

    /// Each coordinate multiplied by `k`.
    pub fn times(self, k: S) -> (v: Self)
        requires
            self.can_times(k),
        ensures
            exact::<S>() ==> v == self.spec_times(k),
    {
        Vector2 { x: self.x * k, y: self.y * k }
    }

    /// Each coordinate divided by `k`.
    pub fn over(self, k: S) -> (v: Self)
        requires
            self.can_over(k),
        ensures
            exact::<S>() ==> v == self.spec_over(k),
    {
        Vector2 { x: self.x / k, y: self.y / k }
    }

    /// Square of the vector's length.
    pub fn length_sq(self) -> (l: S)
        requires
            safe::<S>(self.can_length_sq()),
        ensures
            exact::<S>() ==> l == self.spec_length_sq(),
    {
        self.x * self.x + self.y * self.y
    }
}

/// The vector divided by its own length.
pub open spec fn spec_normalize<S: Scalar, R: Fn(S) -> S>(vec: Vector2<S>, sqrt: R) -> Vector2<S> {
    vec.spec_over(spec_root(sqrt, vec.spec_length_sq()))
}

/// `vec` can be normalized with `sqrt`.
pub open spec fn can_normalize<S: Scalar, R: Fn(S) -> S>(vec: Vector2<S>, sqrt: R) -> bool {
    &&& vec.can_length_sq()
    &&& sqrt.requires((vec.spec_length_sq(),))
    &&& vec.can_over(spec_root(sqrt, vec.spec_length_sq()))
}

/// The vector of length one that points where `vec` points: `vec` divided by
/// the square root of its squared length. The caller keeps the zero vector
/// away from it.
pub fn normalize<S: Scalar, R: Fn(S) -> S>(vec: &Vector2<S>, sqrt: &R) -> (unit: Vector2<S>)
    requires
        safe_with(*sqrt, can_normalize(*vec, *sqrt)),
    ensures
        exact::<S>() && root_exact(*sqrt) ==> unit == spec_normalize(*vec, *sqrt),
{
    let length = root(sqrt, vec.length_sq());
    vec.over(length)
}

} // verus!
