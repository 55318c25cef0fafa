//! The configuration of a simulation: the rectangle the bodies live in and
//! the constants of its physics.

use vstd::prelude::*;
use vstd::std_specs::ops::{AddSpec, DivSpec};
use vstd::std_specs::cmp::PartialOrdIs;
use crate::scalar::{exact, root_exact, safe, safe_with, Scalar};
use crate::vector::Vector2;

verus! {

/// Everything a step needs to know besides the bodies.
///
/// The world is an axis-aligned rectangle; `border_up` is the smallest `y`
/// inside it and `border_down` the largest. Two fields hold the numbers 0 and
/// 2 of the scalar type, and `sqrt` is its square root: a generic scalar
/// brings neither along.
pub struct World<S, R> {
    /// Strength of gravity: the force between two bodies is this constant
    /// times both masses over the squared distance.
    pub gravitational_constant: S,
    /// Smallest `x` inside the world.
    pub border_left: S,
    /// Largest `x` inside the world.
    pub border_right: S,
    /// Smallest `y` inside the world.
    pub border_up: S,
    /// Largest `y` inside the world.
    pub border_down: S,
    /// What is left of a body's offset from the centre when it is mirrored
    /// back into the world.
    pub mirror_damping: S,
    /// A body's radius is the square root of its mass times this constant.
    pub radius_scale: S,
    /// The number 0.
    pub zero: S,
    /// The number 2.
    pub two: S,
    /// The square root.
    pub sqrt: R,
}

impl<S: Scalar, R: Fn(S) -> S> World<S, R> {
    /// Everything that a step computes in this world is a function of its
    /// inputs.
    pub open spec fn exact(self) -> bool {
        exact::<S>() && root_exact(self.sqrt)
    }

    /// A computation in this world cannot fail: either nothing can, or
    /// everything is a function of its inputs and the operations that the
    /// computation carries out accept their operands, which is what `defined`
    /// says.
    pub open spec fn safe(self, defined: bool) -> bool {
        safe_with(self.sqrt, defined)
    }

    /// The centre can be computed.
    pub open spec fn can_center(self) -> bool {
        &&& self.border_left.add_req(self.border_right)
        &&& self.border_left.add_spec(self.border_right).div_req(self.two)
        &&& self.border_up.add_req(self.border_down)
        &&& self.border_up.add_spec(self.border_down).div_req(self.two)
    }

    /// The vector whose coordinates are both 0.
    pub open spec fn spec_origin(self) -> Vector2<S> {
        Vector2 { x: self.zero, y: self.zero }
    }

    /// The middle of the rectangle.
    pub open spec fn spec_center(self) -> Vector2<S> {
        Vector2 {
            x: self.border_left.add_spec(self.border_right).div_spec(self.two),
            y: self.border_up.add_spec(self.border_down).div_spec(self.two),
        }
    }

    /// `p` lies strictly outside the rectangle on some axis.
    pub open spec fn spec_is_outside(self, p: Vector2<S>) -> bool {
        ||| p.x.is_gt(&self.border_right)
        ||| p.x.is_lt(&self.border_left)
        ||| p.y.is_lt(&self.border_up)
        ||| p.y.is_gt(&self.border_down)
    }

    /// The vector whose coordinates are both 0.
    pub fn origin(&self) -> (o: Vector2<S>)
        ensures
            o == self.spec_origin(),
    {
        Vector2 { x: self.zero, y: self.zero }
    }

    /// The middle of the rectangle.
    pub fn center(&self) -> (c: Vector2<S>)
        requires
            safe::<S>(self.can_center()),
        ensures
            exact::<S>() ==> c == self.spec_center(),
    {
        Vector2 {
            x: (self.border_left + self.border_right) / self.two,
            y: (self.border_up + self.border_down) / self.two,
        }
    }

    /// Whether `p` lies strictly outside the rectangle on some axis.
    pub fn is_outside(&self, p: Vector2<S>) -> (out: bool)
        ensures
            exact::<S>() ==> out == self.spec_is_outside(p),
    {
        p.x > self.border_right || p.x < self.border_left || p.y < self.border_up || p.y
            > self.border_down
    }
}

} // verus!
