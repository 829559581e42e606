//! Sums of products on a coordinate type, as spec values and as executable steps.
//!
//! Each spec function below has a companion `*_defined` predicate saying that every
//! operation it performs is defined for the coordinate type (for an integer type: that no
//! step overflows). The executable steps compute exactly the spec value when the coordinate
//! type obeys its arithmetic specification.

use core::ops::{Add, Mul, Sub};
use vstd::prelude::*;
use vstd::std_specs::ops::{AddSpec, MulSpec, SubSpec};

verus! {

/// `acc + a * b`.
pub open spec fn mul_add<T: Add<Output = T> + Mul<Output = T>>(acc: T, a: T, b: T) -> T {
    acc.add_spec(a.mul_spec(b))
}

/// Whether `acc + a * b` is defined.
pub open spec fn mul_add_defined<T: Add<Output = T> + Mul<Output = T>>(acc: T, a: T, b: T) -> bool {
    a.mul_req(b) && acc.add_req(a.mul_spec(b))
}

/// `acc - a * b`.
pub open spec fn mul_sub<T: Sub<Output = T> + Mul<Output = T>>(acc: T, a: T, b: T) -> T {
    acc.sub_spec(a.mul_spec(b))
}

/// Whether `acc - a * b` is defined.
pub open spec fn mul_sub_defined<T: Sub<Output = T> + Mul<Output = T>>(acc: T, a: T, b: T) -> bool {
    a.mul_req(b) && acc.sub_req(a.mul_spec(b))
}

/// The dot product `a0 * b0 + a1 * b1 + a2 * b2`, summed left to right.
pub open spec fn dot3<T: Add<Output = T> + Mul<Output = T>>(
    a0: T,
    a1: T,
    a2: T,
    b0: T,
    b1: T,
    b2: T,
) -> T {
    mul_add(mul_add(a0.mul_spec(b0), a1, b1), a2, b2)
}

/// Whether [`dot3`] is defined.
pub open spec fn dot3_defined<T: Add<Output = T> + Mul<Output = T>>(
    a0: T,
    a1: T,
    a2: T,
    b0: T,
    b1: T,
    b2: T,
) -> bool {
    &&& a0.mul_req(b0)
    &&& mul_add_defined(a0.mul_spec(b0), a1, b1)
    &&& mul_add_defined(mul_add(a0.mul_spec(b0), a1, b1), a2, b2)
}

/// The cross term `a * b - c * d`.
pub open spec fn cross_term<T: Sub<Output = T> + Mul<Output = T>>(a: T, b: T, c: T, d: T) -> T {
    mul_sub(a.mul_spec(b), c, d)
}

/// Whether [`cross_term`] is defined.
pub open spec fn cross_term_defined<T: Sub<Output = T> + Mul<Output = T>>(
    a: T,
    b: T,
    c: T,
    d: T,
) -> bool {
    a.mul_req(b) && mul_sub_defined(a.mul_spec(b), c, d)
}

/// Computes `a * b`.
pub fn exec_mul<T: Mul<Output = T>>(a: T, b: T) -> (r: T)
    requires
        T::obeys_mul_spec(),
        a.mul_req(b),
    ensures
        r == a.mul_spec(b),
{
    a * b
}

/// Computes `acc + a * b`.
pub fn exec_mul_add<T: Add<Output = T> + Mul<Output = T>>(acc: T, a: T, b: T) -> (r: T)
    requires
        T::obeys_add_spec(),
        T::obeys_mul_spec(),
        mul_add_defined(acc, a, b),
    ensures
        r == mul_add(acc, a, b),
{
    acc + a * b
}

/// Computes `acc - a * b`.
pub fn exec_mul_sub<T: Sub<Output = T> + Mul<Output = T>>(acc: T, a: T, b: T) -> (r: T)
    requires
        T::obeys_sub_spec(),
        T::obeys_mul_spec(),
        mul_sub_defined(acc, a, b),
    ensures
        r == mul_sub(acc, a, b),
{
    acc - a * b
}

/// Computes `a0 * b0 + a1 * b1 + a2 * b2`.
pub fn exec_dot3<T: Add<Output = T> + Mul<Output = T>>(
    a0: T,
    a1: T,
    a2: T,
    b0: T,
    b1: T,
    b2: T,
) -> (r: T)
    requires
        T::obeys_add_spec(),
        T::obeys_mul_spec(),
        dot3_defined(a0, a1, a2, b0, b1, b2),
    ensures
        r == dot3(a0, a1, a2, b0, b1, b2),
{
    exec_mul_add(exec_mul_add(exec_mul(a0, b0), a1, b1), a2, b2)
}

/// Computes `a * b - c * d`.
pub fn exec_cross_term<T: Sub<Output = T> + Mul<Output = T>>(a: T, b: T, c: T, d: T) -> (r: T)
    requires
        T::obeys_sub_spec(),
        T::obeys_mul_spec(),
        cross_term_defined(a, b, c, d),
    ensures
        r == cross_term(a, b, c, d),
{
    exec_mul_sub(exec_mul(a, b), c, d)
}


/// For integer coordinates, a defined dot product is the exact mathematical one.
pub proof fn lemma_dot3_exact(a0: i64, a1: i64, a2: i64, b0: i64, b1: i64, b2: i64)
    requires
        dot3_defined(a0, a1, a2, b0, b1, b2),
    ensures
        dot3(a0, a1, a2, b0, b1, b2) as int == a0 * b0 + a1 * b1 + a2 * b2,
{
}

} // verus!
