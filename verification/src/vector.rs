//! A 3D displacement vector tagged with its reference frame and physical unit.

use core::marker::PhantomData;
use core::ops::{Add, AddAssign, Div, DivAssign, Mul, MulAssign, Neg, Sub, SubAssign};
use vstd::prelude::*;
use vstd::std_specs::ops::{
    AddSpec, AddSpecImpl, DivSpec, DivSpecImpl, MulSpec, MulSpecImpl, NegSpec, NegSpecImpl,
    SubSpec, SubSpecImpl,
};

use crate::frames::Frame;
use crate::linalg::{
    cross_term, cross_term_defined, dot3, dot3_defined, exec_cross_term, exec_dot3,
};
use crate::units::Unit;

verus! {

/// A 3D vector expressed in frame `F` with components in unit `U`.
///
/// Vectors of different frames or units are different types, so they cannot be added
/// without an explicit rotation or conversion.
#[derive(Debug, PartialEq)]
pub struct Vector3<F: Frame, U: Unit, T> {
    /// First component.
    pub x: T,
    /// Second component.
    pub y: T,
    /// Third component.
    pub z: T,
    /// The frame tag (zero-sized).
    pub frame: PhantomData<F>,
    /// The unit tag (zero-sized).
    pub unit: PhantomData<U>,
}

/// The vector with components `(x, y, z)`, as a spec value.
pub open spec fn vector_of<F: Frame, U: Unit, T>(x: T, y: T, z: T) -> Vector3<F, U, T> {
    Vector3 { x, y, z, frame: PhantomData, unit: PhantomData }
}

/// Component-wise sum `a + b`.
pub open spec fn vector_sum<F: Frame, U: Unit, T: Add<Output = T>>(
    a: Vector3<F, U, T>,
    b: Vector3<F, U, T>,
) -> Vector3<F, U, T> {
    vector_of(a.x.add_spec(b.x), a.y.add_spec(b.y), a.z.add_spec(b.z))
}

/// Component-wise difference `a - b`.
pub open spec fn vector_difference<F: Frame, U: Unit, T: Sub<Output = T>>(
    a: Vector3<F, U, T>,
    b: Vector3<F, U, T>,
) -> Vector3<F, U, T> {
    vector_of(a.x.sub_spec(b.x), a.y.sub_spec(b.y), a.z.sub_spec(b.z))
}

/// Component-wise negation `-a`.
pub open spec fn vector_negation<F: Frame, U: Unit, T: Neg<Output = T>>(
    a: Vector3<F, U, T>,
) -> Vector3<F, U, T> {
    vector_of(a.x.neg_spec(), a.y.neg_spec(), a.z.neg_spec())
}

/// Every component of `a` multiplied by `s`.
pub open spec fn vector_scaled<F: Frame, U: Unit, T: Mul<Output = T>>(
    a: Vector3<F, U, T>,
    s: T,
) -> Vector3<F, U, T> {
    vector_of(a.x.mul_spec(s), a.y.mul_spec(s), a.z.mul_spec(s))
}

/// Every component of `a` divided by `s`.
pub open spec fn vector_divided<F: Frame, U: Unit, T: Div<Output = T>>(
    a: Vector3<F, U, T>,
    s: T,
) -> Vector3<F, U, T> {
    vector_of(a.x.div_spec(s), a.y.div_spec(s), a.z.div_spec(s))
}

/// The dot product of `a` and `b`.
pub open spec fn vector_dot<F: Frame, U: Unit, T: Add<Output = T> + Mul<Output = T>>(
    a: Vector3<F, U, T>,
    b: Vector3<F, U, T>,
) -> T {
    dot3(a.x, a.y, a.z, b.x, b.y, b.z)
}

/// Whether the dot product of `a` and `b` is defined.
pub open spec fn vector_dot_defined<F: Frame, U: Unit, T: Add<Output = T> + Mul<Output = T>>(
    a: Vector3<F, U, T>,
    b: Vector3<F, U, T>,
) -> bool {
    dot3_defined(a.x, a.y, a.z, b.x, b.y, b.z)
}

/// The cross product `a × b`.
pub open spec fn vector_cross<F: Frame, U: Unit, T: Sub<Output = T> + Mul<Output = T>>(
    a: Vector3<F, U, T>,
    b: Vector3<F, U, T>,
) -> Vector3<F, U, T> {
    vector_of(
        cross_term(a.y, b.z, a.z, b.y),
        cross_term(a.z, b.x, a.x, b.z),
        cross_term(a.x, b.y, a.y, b.x),
    )
}

/// Whether the cross product `a × b` is defined.
pub open spec fn vector_cross_defined<F: Frame, U: Unit, T: Sub<Output = T> + Mul<Output = T>>(
    a: Vector3<F, U, T>,
    b: Vector3<F, U, T>,
) -> bool {
    &&& cross_term_defined(a.y, b.z, a.z, b.y)
    &&& cross_term_defined(a.z, b.x, a.x, b.z)
    &&& cross_term_defined(a.x, b.y, a.y, b.x)
}

/// Whether `v` holds three values that `T::default` may return.
pub open spec fn is_default_vector<F: Frame, U: Unit, T: Default>(v: Vector3<F, U, T>) -> bool {
    &&& call_ensures(T::default, (), v.x)
    &&& call_ensures(T::default, (), v.y)
    &&& call_ensures(T::default, (), v.z)
}

impl<F: Frame, U: Unit, T: Copy> Clone for Vector3<F, U, T> {
    fn clone(&self) -> (r: Self)
        ensures
            r == *self,
    {
        *self
    }
}

impl<F: Frame, U: Unit, T: Copy> Copy for Vector3<F, U, T> {}

impl<F: Frame, U: Unit, T> Vector3<F, U, T> {
    /// Creates a vector from its three components.
    pub fn new(x: T, y: T, z: T) -> (r: Self)
        ensures
            r == vector_of::<F, U, T>(x, y, z),
    {
        Vector3 { x, y, z, frame: PhantomData, unit: PhantomData }
    }

    /// The zero vector: every component is `T::default()`.
    pub fn zero() -> (r: Self)
        where T: Default,
        ensures
            is_default_vector(r),
    {
        Self::new(T::default(), T::default(), T::default())
    }

    /// Alias of [`Vector3::zero`].
    pub fn zeros() -> (r: Self)
        where T: Default,
        ensures
            is_default_vector(r),
    {
        Self::zero()
    }

    /// Creates a vector from the array `[x, y, z]`.
    pub fn from_array(arr: [T; 3]) -> (r: Self)
        where T: Copy,
        ensures
            r == vector_of::<F, U, T>(arr[0], arr[1], arr[2]),
    {
        Self::new(arr[0], arr[1], arr[2])
    }

    /// The components as the array `[x, y, z]`.
    pub fn as_array(self) -> (r: [T; 3])
        where T: Copy,
        ensures
            r@ == seq![self.x, self.y, self.z],
    {
        [self.x, self.y, self.z]
    }
}

impl<F: Frame, U: Unit, T: Copy + Add<Output = T> + Mul<Output = T>> Vector3<F, U, T> {
    /// Dot product with another vector of the same frame and unit.
    pub fn dot(self, rhs: Self) -> (r: T)
        requires
            T::obeys_add_spec(),
            T::obeys_mul_spec(),
            vector_dot_defined(self, rhs),
        ensures
            r == vector_dot(self, rhs),
    {
        exec_dot3(self.x, self.y, self.z, rhs.x, rhs.y, rhs.z)
    }

    /// Squared Euclidean norm (the dot product with itself).
    pub fn norm_sq(self) -> (r: T)
        requires
            T::obeys_add_spec(),
            T::obeys_mul_spec(),
            vector_dot_defined(self, self),
        ensures
            r == vector_dot(self, self),
    {
        self.dot(self)
    }
}

impl<F: Frame, U: Unit, T: Copy + Sub<Output = T> + Mul<Output = T>> Vector3<F, U, T> {
    /// Cross product with another vector of the same frame and unit.
    pub fn cross(self, rhs: Self) -> (r: Self)
        requires
            T::obeys_sub_spec(),
            T::obeys_mul_spec(),
            vector_cross_defined(self, rhs),
        ensures
            r == vector_cross(self, rhs),
    {
        Self::new(
            exec_cross_term(self.y, rhs.z, self.z, rhs.y),
            exec_cross_term(self.z, rhs.x, self.x, rhs.z),
            exec_cross_term(self.x, rhs.y, self.y, rhs.x),
        )
    }
}

impl<F: Frame, U: Unit, T: Default> Default for Vector3<F, U, T> {
    fn default() -> (r: Self)
        ensures
            is_default_vector(r),
    {
        Self::new(T::default(), T::default(), T::default())
    }
}

impl<F: Frame, U: Unit, T: Add<Output = T>> AddSpecImpl for Vector3<F, U, T> {
    open spec fn obeys_add_spec() -> bool {
        T::obeys_add_spec()
    }

    open spec fn add_req(self, rhs: Self) -> bool {
        &&& self.x.add_req(rhs.x)
        &&& self.y.add_req(rhs.y)
        &&& self.z.add_req(rhs.z)
    }

    open spec fn add_spec(self, rhs: Self) -> Self {
        vector_sum(self, rhs)
    }
}

impl<F: Frame, U: Unit, T: Add<Output = T>> Add for Vector3<F, U, T> {
    type Output = Self;

    /// Component-wise sum.
    fn add(self, rhs: Self) -> (r: Self)
        ensures
            T::obeys_add_spec() ==> r == vector_sum(self, rhs),
    {
        Vector3::new(self.x + rhs.x, self.y + rhs.y, self.z + rhs.z)
    }
}

impl<F: Frame, U: Unit, T: Sub<Output = T>> SubSpecImpl for Vector3<F, U, T> {
    open spec fn obeys_sub_spec() -> bool {
        T::obeys_sub_spec()
    }

    open spec fn sub_req(self, rhs: Self) -> bool {
        &&& self.x.sub_req(rhs.x)
        &&& self.y.sub_req(rhs.y)
        &&& self.z.sub_req(rhs.z)
    }

    open spec fn sub_spec(self, rhs: Self) -> Self {
        vector_difference(self, rhs)
    }
}

impl<F: Frame, U: Unit, T: Sub<Output = T>> Sub for Vector3<F, U, T> {
    type Output = Self;

    /// Component-wise difference.
    fn sub(self, rhs: Self) -> (r: Self)
        ensures
            T::obeys_sub_spec() ==> r == vector_difference(self, rhs),
    {
        Vector3::new(self.x - rhs.x, self.y - rhs.y, self.z - rhs.z)
    }
}

impl<F: Frame, U: Unit, T: Neg<Output = T>> NegSpecImpl for Vector3<F, U, T> {
    open spec fn obeys_neg_spec() -> bool {
        T::obeys_neg_spec()
    }

    open spec fn neg_req(self) -> bool {
        &&& self.x.neg_req()
        &&& self.y.neg_req()
        &&& self.z.neg_req()
    }

    open spec fn neg_spec(self) -> Self {
        vector_negation(self)
    }
}

impl<F: Frame, U: Unit, T: Neg<Output = T>> Neg for Vector3<F, U, T> {
    type Output = Self;

    /// Component-wise negation.
    fn neg(self) -> (r: Self)
        ensures
            T::obeys_neg_spec() ==> r == vector_negation(self),
    {
        Vector3::new(self.x.neg(), self.y.neg(), self.z.neg())
    }
}

impl<F: Frame, U: Unit, T: Mul<Output = T> + Copy> MulSpecImpl<T> for Vector3<F, U, T> {
    open spec fn obeys_mul_spec() -> bool {
        T::obeys_mul_spec()
    }

    open spec fn mul_req(self, rhs: T) -> bool {
        &&& self.x.mul_req(rhs)
        &&& self.y.mul_req(rhs)
        &&& self.z.mul_req(rhs)
    }

    open spec fn mul_spec(self, rhs: T) -> Self {
        vector_scaled(self, rhs)
    }
}

impl<F: Frame, U: Unit, T: Mul<Output = T> + Copy> Mul<T> for Vector3<F, U, T> {
    type Output = Self;

    /// Scales every component by `scalar`.
    fn mul(self, scalar: T) -> (r: Self)
        ensures
            T::obeys_mul_spec() ==> r == vector_scaled(self, scalar),
    {
        Vector3::new(self.x * scalar, self.y * scalar, self.z * scalar)
    }
}

impl<F: Frame, U: Unit, T: Div<Output = T> + Copy> DivSpecImpl<T> for Vector3<F, U, T> {
    open spec fn obeys_div_spec() -> bool {
        T::obeys_div_spec()
    }

    open spec fn div_req(self, rhs: T) -> bool {
        &&& self.x.div_req(rhs)
        &&& self.y.div_req(rhs)
        &&& self.z.div_req(rhs)
    }

    open spec fn div_spec(self, rhs: T) -> Self {
        vector_divided(self, rhs)
    }
}

impl<F: Frame, U: Unit, T: Div<Output = T> + Copy> Div<T> for Vector3<F, U, T> {
    type Output = Self;

    /// Divides every component by `scalar`.
    fn div(self, scalar: T) -> (r: Self)
        ensures
            T::obeys_div_spec() ==> r == vector_divided(self, scalar),
    {
        Vector3::new(self.x / scalar, self.y / scalar, self.z / scalar)
    }
}

impl<F: Frame, U: Unit, T: Add<Output = T> + Copy> AddAssign for Vector3<F, U, T> {
    /// In-place component-wise sum.
    fn add_assign(&mut self, rhs: Self)
        requires
            old(self).x.add_req(rhs.x),
            old(self).y.add_req(rhs.y),
            old(self).z.add_req(rhs.z),
        ensures
            T::obeys_add_spec() ==> *final(self) == vector_sum(*old(self), rhs),
    {
        self.x = self.x + rhs.x;
        self.y = self.y + rhs.y;
        self.z = self.z + rhs.z;
    }
}

impl<F: Frame, U: Unit, T: Sub<Output = T> + Copy> SubAssign for Vector3<F, U, T> {
    /// In-place component-wise difference.
    fn sub_assign(&mut self, rhs: Self)
        requires
            old(self).x.sub_req(rhs.x),
            old(self).y.sub_req(rhs.y),
            old(self).z.sub_req(rhs.z),
        ensures
            T::obeys_sub_spec() ==> *final(self) == vector_difference(*old(self), rhs),
    {
        self.x = self.x - rhs.x;
        self.y = self.y - rhs.y;
        self.z = self.z - rhs.z;
    }
}

impl<F: Frame, U: Unit, T: Mul<Output = T> + Copy> MulAssign<T> for Vector3<F, U, T> {
    /// In-place scaling by `scalar`.
    fn mul_assign(&mut self, scalar: T)
        requires
            old(self).x.mul_req(scalar),
            old(self).y.mul_req(scalar),
            old(self).z.mul_req(scalar),
        ensures
            T::obeys_mul_spec() ==> *final(self) == vector_scaled(*old(self), scalar),
    {
        self.x = self.x * scalar;
        self.y = self.y * scalar;
        self.z = self.z * scalar;
    }
}

impl<F: Frame, U: Unit, T: Div<Output = T> + Copy> DivAssign<T> for Vector3<F, U, T> {
    /// In-place division by `scalar`.
    fn div_assign(&mut self, scalar: T)
        requires
            old(self).x.div_req(scalar),
            old(self).y.div_req(scalar),
            old(self).z.div_req(scalar),
        ensures
            T::obeys_div_spec() ==> *final(self) == vector_divided(*old(self), scalar),
    {
        self.x = self.x / scalar;
        self.y = self.y / scalar;
        self.z = self.z / scalar;
    }
}


/// Adding a vector and then subtracting it again gives back the original vector
/// ((a + b) - b = a), for integer components where `a + b` does not overflow.
pub proof fn lemma_sum_then_difference<F: Frame, U: Unit>(
    a: Vector3<F, U, i64>,
    b: Vector3<F, U, i64>,
)
    requires
        i64::MIN <= a.x + b.x <= i64::MAX,
        i64::MIN <= a.y + b.y <= i64::MAX,
        i64::MIN <= a.z + b.z <= i64::MAX,
    ensures
        vector_difference(vector_sum(a, b), b) == a,
{
}

/// Negating twice gives back the original vector (-(-a) = a), for integer components
/// whose negation does not overflow.
pub proof fn lemma_double_negation<F: Frame, U: Unit>(a: Vector3<F, U, i64>)
    requires
        a.x != i64::MIN,
        a.y != i64::MIN,
        a.z != i64::MIN,
    ensures
        vector_negation(vector_negation(a)) == a,
{
}

} // verus!
