//! What the simulation asks of a scalar type, and how contracts speak of it.

use vstd::prelude::*;
use vstd::std_specs::ops::{AddSpec, SubSpec, MulSpec, DivSpec};
use vstd::std_specs::cmp::{PartialEqSpec, PartialOrdSpec};
use core::ops::{Add, Sub, Mul, Div};

verus! {

/// A number the simulation can compute with: it can be copied, compared,
/// added, subtracted, multiplied and divided. Every type with these operators
/// is a `Scalar`; there is nothing to implement.
pub trait Scalar: Copy + PartialOrd + Add<Output = Self> + Sub<Output = Self> + Mul<
    Output = Self,
> + Div<Output = Self> {

}

impl<T> Scalar for T where
    T: Copy + PartialOrd + Add<Output = T> + Sub<Output = T> + Mul<Output = T> + Div<Output = T>,
 {
}

/// Arithmetic on `S` cannot fail: each operator accepts every pair of
/// operands.
pub open spec fn total<S: Scalar>() -> bool {
    &&& forall|a: S, b: S| #[trigger] a.add_req(b)
    &&& forall|a: S, b: S| #[trigger] a.sub_req(b)
    &&& forall|a: S, b: S| #[trigger] a.mul_req(b)
    &&& forall|a: S, b: S| #[trigger] a.div_req(b)
}

/// Arithmetic and comparison on `S` are functions: the same operands always
/// give the same result, the one that the operator's specification names.
pub open spec fn exact<S: Scalar>() -> bool {
    &&& S::obeys_add_spec()
    &&& S::obeys_sub_spec()
    &&& S::obeys_mul_spec()
    &&& S::obeys_div_spec()
    &&& S::obeys_eq_spec()
    &&& S::obeys_partial_cmp_spec()
}

/// A computation on `S` cannot fail: either no operation on `S` can, or every
/// operation is a function and those that the computation carries out accept
/// their operands, which is what `defined` says.
pub open spec fn safe<S: Scalar>(defined: bool) -> bool {
    total::<S>() || (exact::<S>() && defined)
}

/// The square root `sqrt` accepts every scalar.
pub open spec fn root_total<S, R: Fn(S) -> S>(sqrt: R) -> bool {
    forall|x: S| #[trigger] sqrt.requires((x,))
}

/// The square root `sqrt` is a function: it has one result per scalar.
pub open spec fn root_exact<S, R: Fn(S) -> S>(sqrt: R) -> bool {
    forall|x: S, a: S, b: S| #[trigger]
        sqrt.ensures((x,), a) && #[trigger] sqrt.ensures((x,), b) ==> a == b
}

/// A computation on `S` that takes square roots with `sqrt` cannot fail:
/// either no operation can, or every operation is a function and those that
/// the computation carries out accept their operands, which is what `defined`
/// says.
pub open spec fn safe_with<S: Scalar, R: Fn(S) -> S>(sqrt: R, defined: bool) -> bool {
    (total::<S>() && root_total(sqrt)) || (exact::<S>() && root_exact(sqrt) && defined)
}

/// What `sqrt` returns for `x`.
pub open spec fn spec_root<S, R: Fn(S) -> S>(sqrt: R, x: S) -> S {
    choose|r: S| sqrt.ensures((x,), r)
}

/// The square root of `x`, taken with `sqrt`.
pub fn root<S: Copy, R: Fn(S) -> S>(sqrt: &R, x: S) -> (r: S)
    requires
        sqrt.requires((x,)),
    ensures
        sqrt.ensures((x,), r),
        root_exact(*sqrt) ==> r == spec_root(*sqrt, x),
{
    sqrt(x)
}

} // verus!
