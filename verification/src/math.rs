//! Small arithmetic helpers shared by every stage of the synthesiser.

use std::ops::{Add, Mul, Sub};
use vstd::prelude::*;
use vstd::std_specs::ops::{AddSpec, MulSpec, SubSpec};

verus! {

/// The point reached when moving from `i0` towards `i1` by the fraction `v`:
/// `i0 + v * (i1 - i0)`, in the arithmetic of `T`.
pub open spec fn interpolated<T>(i0: T, i1: T, v: T) -> T where
    T: Sub<T, Output = T> + Mul<T, Output = T> + Add<T, Output = T> + Copy,
 {
    i0.add_spec(v.mul_spec(i1.sub_spec(i0)))
}

/// Whether `i0 + v * (i1 - i0)` can be evaluated in `T`: the three operators
/// follow their specification and none of the three steps leaves the type.
pub open spec fn can_interpolate<T>(i0: T, i1: T, v: T) -> bool where
    T: Sub<T, Output = T> + Mul<T, Output = T> + Add<T, Output = T> + Copy,
 {
    &&& T::obeys_sub_spec()
    &&& T::obeys_mul_spec()
    &&& T::obeys_add_spec()
    &&& i1.sub_req(i0)
    &&& v.mul_req(i1.sub_spec(i0))
    &&& i0.add_req(v.mul_spec(i1.sub_spec(i0)))
}

/// Whether `x * x` can be evaluated in `T`.
pub open spec fn can_square<T>(x: T) -> bool where T: Mul<T, Output = T> + Copy {
    T::obeys_mul_spec() && x.mul_req(x)
}

/// Linear interpolation between `i0` (at `v = 0`) and `i1` (at `v = 1`).
///
/// The contract is for types whose operators follow their specification, as
/// those of the integers do. On a type whose arithmetic cannot fail but is
/// not specified the call is safe, and nothing is known of the result.
pub fn interpolate<T>(i0: T, i1: T, v: T) -> (r: T) where
    T: Sub<T, Output = T> + Mul<T, Output = T> + Add<T, Output = T> + Copy,

    requires
        can_interpolate(i0, i1, v),
    ensures
        r == interpolated(i0, i1, v),
{
    i0 + v * (i1 - i0)
}

/// The square of `x`.
pub fn sqr<T>(x: T) -> (r: T) where T: Mul<T, Output = T> + Copy
    requires
        can_square(x),
    ensures
        r == x.mul_spec(x),
{
    x * x
}

/// Interpolation starts at `i0` and ends at `i1`, and every whole step in
/// between advances by the same distance `i1 - i0`.
pub proof fn lemma_interpolate_steps(i0: i64, i1: i64, v: i64)
    requires
        i64::MIN <= i1 - i0 <= i64::MAX,
        i64::MIN <= v * (i1 - i0) <= i64::MAX,
        i64::MIN <= i0 + v * (i1 - i0) <= i64::MAX,
    ensures
        can_interpolate(i0, i1, v),
        interpolated(i0, i1, v) == i0 + v * (i1 - i0),
        v == 0 ==> interpolated(i0, i1, v) == i0,
        v == 1 ==> interpolated(i0, i1, v) == i1,
{
}

/// A square in the integers is the product of the number with itself and is
/// never negative.
pub proof fn lemma_square_nonnegative(x: i64)
    requires
        x * x <= i64::MAX,
    ensures
        can_square(x),
        x.mul_spec(x) == x * x,
        x.mul_spec(x) >= 0,
{
    assert(x * x >= 0) by (nonlinear_arith);
}

} // verus!
