//! A scalar magnitude tagged with its physical unit.

use core::marker::PhantomData;
use core::ops::{Add, AddAssign, Div, DivAssign, Mul, MulAssign, Neg, Sub, SubAssign};
use vstd::prelude::*;
use vstd::std_specs::cmp::{PartialEqSpec, PartialEqSpecImpl, PartialOrdSpec, PartialOrdSpecImpl};
use vstd::std_specs::ops::{
    AddSpec, AddSpecImpl, DivSpec, DivSpecImpl, MulSpec, MulSpecImpl, NegSpec, NegSpecImpl,
    SubSpec, SubSpecImpl,
};

use crate::units::Unit;

verus! {

/// A scalar magnitude bound to a physical unit `U` (e.g. a distance in `Meters`).
#[derive(Debug)]
pub struct Scalar<U: Unit, T> {
    /// The raw magnitude.
    pub value: T,
    /// The unit tag (zero-sized).
    pub unit: PhantomData<U>,
}

impl<U: Unit, T: Copy> Clone for Scalar<U, T> {
    fn clone(&self) -> (r: Self)
        ensures
            r == *self,
    {
        *self
    }
}

impl<U: Unit, T: Copy> Copy for Scalar<U, T> {}

impl<U: Unit, T: PartialEq> PartialEq for Scalar<U, T> {
    fn eq(&self, other: &Self) -> (r: bool) {
        self.value == other.value
    }
}

impl<U: Unit, T: PartialEq> PartialEqSpecImpl for Scalar<U, T> {
    open spec fn obeys_eq_spec() -> bool {
        T::obeys_eq_spec()
    }

    open spec fn eq_spec(&self, other: &Self) -> bool {
        self.value.eq_spec(&other.value)
    }
}

impl<U: Unit, T: PartialOrd> PartialOrd for Scalar<U, T> {
    fn partial_cmp(&self, other: &Self) -> (r: Option<core::cmp::Ordering>) {
        self.value.partial_cmp(&other.value)
    }
}

impl<U: Unit, T: PartialOrd> PartialOrdSpecImpl for Scalar<U, T> {
    open spec fn obeys_partial_cmp_spec() -> bool {
        T::obeys_partial_cmp_spec()
    }

    open spec fn partial_cmp_spec(&self, other: &Self) -> Option<core::cmp::Ordering> {
        self.value.partial_cmp_spec(&other.value)
    }
}

/// The scalar with magnitude `value`, as a spec value.
pub open spec fn scalar_of<U: Unit, T>(value: T) -> Scalar<U, T> {
    Scalar { value, unit: PhantomData }
}

impl<U: Unit, T> Scalar<U, T> {
    /// Creates a typed scalar.
    pub fn new(value: T) -> (r: Self)
        ensures
            r == scalar_of::<U, T>(value),
    {
        Scalar { value, unit: PhantomData }
    }

    /// Extracts the raw magnitude.
    pub fn raw(self) -> (r: T)
        ensures
            r == self.value,
    {
        self.value
    }
}

impl<U: Unit, T: Add<Output = T>> AddSpecImpl for Scalar<U, T> {
    open spec fn obeys_add_spec() -> bool {
        T::obeys_add_spec()
    }

    open spec fn add_req(self, rhs: Self) -> bool {
        self.value.add_req(rhs.value)
    }

    open spec fn add_spec(self, rhs: Self) -> Self {
        scalar_of(self.value.add_spec(rhs.value))
    }
}

impl<U: Unit, T: Add<Output = T>> Add for Scalar<U, T> {
    type Output = Self;

    fn add(self, rhs: Self) -> (r: Self)
        ensures
            T::obeys_add_spec() ==> r == scalar_of::<U, T>(self.value.add_spec(rhs.value)),
    {
        Scalar::new(self.value + rhs.value)
    }
}

impl<U: Unit, T: Sub<Output = T>> SubSpecImpl for Scalar<U, T> {
    open spec fn obeys_sub_spec() -> bool {
        T::obeys_sub_spec()
    }

    open spec fn sub_req(self, rhs: Self) -> bool {
        self.value.sub_req(rhs.value)
    }

    open spec fn sub_spec(self, rhs: Self) -> Self {
        scalar_of(self.value.sub_spec(rhs.value))
    }
}

impl<U: Unit, T: Sub<Output = T>> Sub for Scalar<U, T> {
    type Output = Self;

    fn sub(self, rhs: Self) -> (r: Self)
        ensures
            T::obeys_sub_spec() ==> r == scalar_of::<U, T>(self.value.sub_spec(rhs.value)),
    {
        Scalar::new(self.value - rhs.value)
    }
}

impl<U: Unit, T: Neg<Output = T>> NegSpecImpl for Scalar<U, T> {
    open spec fn obeys_neg_spec() -> bool {
        T::obeys_neg_spec()
    }

    open spec fn neg_req(self) -> bool {
        self.value.neg_req()
    }

    open spec fn neg_spec(self) -> Self {
        scalar_of(self.value.neg_spec())
    }
}

impl<U: Unit, T: Neg<Output = T>> Neg for Scalar<U, T> {
    type Output = Self;

    fn neg(self) -> (r: Self)
        ensures
            T::obeys_neg_spec() ==> r == scalar_of::<U, T>(self.value.neg_spec()),
    {
        Scalar::new(self.value.neg())
    }
}

impl<U: Unit, T: Mul<Output = T> + Copy> MulSpecImpl<T> for Scalar<U, T> {
    open spec fn obeys_mul_spec() -> bool {
        T::obeys_mul_spec()
    }

    open spec fn mul_req(self, rhs: T) -> bool {
        self.value.mul_req(rhs)
    }

    open spec fn mul_spec(self, rhs: T) -> Self {
        scalar_of(self.value.mul_spec(rhs))
    }
}

impl<U: Unit, T: Mul<Output = T> + Copy> Mul<T> for Scalar<U, T> {
    type Output = Self;

    fn mul(self, rhs: T) -> (r: Self)
        ensures
            T::obeys_mul_spec() ==> r == scalar_of::<U, T>(self.value.mul_spec(rhs)),
    {
        Scalar::new(self.value * rhs)
    }
}

impl<U: Unit, T: Div<Output = T> + Copy> DivSpecImpl<T> for Scalar<U, T> {
    open spec fn obeys_div_spec() -> bool {
        T::obeys_div_spec()
    }

    open spec fn div_req(self, rhs: T) -> bool {
        self.value.div_req(rhs)
    }

    open spec fn div_spec(self, rhs: T) -> Self {
        scalar_of(self.value.div_spec(rhs))
    }
}

impl<U: Unit, T: Div<Output = T> + Copy> Div<T> for Scalar<U, T> {
    type Output = Self;

    fn div(self, rhs: T) -> (r: Self)
        ensures
            T::obeys_div_spec() ==> r == scalar_of::<U, T>(self.value.div_spec(rhs)),
    {
        Scalar::new(self.value / rhs)
    }
}

impl<U: Unit, T: Add<Output = T> + Copy> AddAssign for Scalar<U, T> {
    fn add_assign(&mut self, rhs: Self)
        requires
            old(self).value.add_req(rhs.value),
        ensures
            T::obeys_add_spec() ==> final(self).value == old(self).value.add_spec(rhs.value),
    {
        self.value = self.value + rhs.value;
    }
}

impl<U: Unit, T: Sub<Output = T> + Copy> SubAssign for Scalar<U, T> {
    fn sub_assign(&mut self, rhs: Self)
        requires
            old(self).value.sub_req(rhs.value),
        ensures
            T::obeys_sub_spec() ==> final(self).value == old(self).value.sub_spec(rhs.value),
    {
        self.value = self.value - rhs.value;
    }
}

impl<U: Unit, T: Mul<Output = T> + Copy> MulAssign<T> for Scalar<U, T> {
    fn mul_assign(&mut self, rhs: T)
        requires
            old(self).value.mul_req(rhs),
        ensures
            T::obeys_mul_spec() ==> final(self).value == old(self).value.mul_spec(rhs),
    {
        self.value = self.value * rhs;
    }
}

impl<U: Unit, T: Div<Output = T> + Copy> DivAssign<T> for Scalar<U, T> {
    fn div_assign(&mut self, rhs: T)
        requires
            old(self).value.div_req(rhs),
        ensures
            T::obeys_div_spec() ==> final(self).value == old(self).value.div_spec(rhs),
    {
        self.value = self.value / rhs;
    }
}

} // verus!
