//! A 3D position (a point of affine space) tagged with its reference frame and unit.
//!
//! Affine rules are enforced by the operator signatures: point - point = vector,
//! point + vector = point, point - vector = point, and there is no point + point.

use core::marker::PhantomData;
use core::ops::{Add, AddAssign, Sub, SubAssign};
use vstd::prelude::*;
use vstd::std_specs::ops::{AddSpec, AddSpecImpl, SubSpec, SubSpecImpl};

use crate::frames::Frame;
use crate::units::Unit;
use crate::vector::{vector_of, Vector3};

verus! {

/// A 3D position expressed in frame `F` with coordinates in unit `U`.
#[derive(Debug, PartialEq)]
pub struct Point3<F: Frame, U: Unit, T> {
    /// First coordinate.
    pub x: T,
    /// Second coordinate.
    pub y: T,
    /// Third coordinate.
    pub z: T,
    /// The frame tag (zero-sized).
    pub frame: PhantomData<F>,
    /// The unit tag (zero-sized).
    pub unit: PhantomData<U>,
}

/// The point with coordinates `(x, y, z)`, as a spec value.
pub open spec fn point_of<F: Frame, U: Unit, T>(x: T, y: T, z: T) -> Point3<F, U, T> {
    Point3 { x, y, z, frame: PhantomData, unit: PhantomData }
}

/// The displacement `p - q` from `q` to `p`, coordinate-wise.
pub open spec fn displacement<F: Frame, U: Unit, T: Sub<Output = T>>(
    p: Point3<F, U, T>,
    q: Point3<F, U, T>,
) -> Vector3<F, U, T> {
    vector_of(p.x.sub_spec(q.x), p.y.sub_spec(q.y), p.z.sub_spec(q.z))
}

/// The point `p + v`: `p` moved by `v`, coordinate-wise.
pub open spec fn translated<F: Frame, U: Unit, T: Add<Output = T>>(
    p: Point3<F, U, T>,
    v: Vector3<F, U, T>,
) -> Point3<F, U, T> {
    point_of(p.x.add_spec(v.x), p.y.add_spec(v.y), p.z.add_spec(v.z))
}

/// The point `p - v`: `p` moved by the opposite of `v`, coordinate-wise.
pub open spec fn translated_back<F: Frame, U: Unit, T: Sub<Output = T>>(
    p: Point3<F, U, T>,
    v: Vector3<F, U, T>,
) -> Point3<F, U, T> {
    point_of(p.x.sub_spec(v.x), p.y.sub_spec(v.y), p.z.sub_spec(v.z))
}

/// Whether `p + v` is defined.
pub open spec fn translated_defined<F: Frame, U: Unit, T: Add<Output = T>>(
    p: Point3<F, U, T>,
    v: Vector3<F, U, T>,
) -> bool {
    p.x.add_req(v.x) && p.y.add_req(v.y) && p.z.add_req(v.z)
}

/// Whether `p - v` is defined.
pub open spec fn translated_back_defined<F: Frame, U: Unit, T: Sub<Output = T>>(
    p: Point3<F, U, T>,
    v: Vector3<F, U, T>,
) -> bool {
    p.x.sub_req(v.x) && p.y.sub_req(v.y) && p.z.sub_req(v.z)
}

/// Whether `p` holds three values that `T::default` may return.
pub open spec fn is_default_point<F: Frame, U: Unit, T: Default>(p: Point3<F, U, T>) -> bool {
    &&& call_ensures(T::default, (), p.x)
    &&& call_ensures(T::default, (), p.y)
    &&& call_ensures(T::default, (), p.z)
}

impl<F: Frame, U: Unit, T: Copy> Clone for Point3<F, U, T> {
    fn clone(&self) -> (r: Self)
        ensures
            r == *self,
    {
        *self
    }
}

impl<F: Frame, U: Unit, T: Copy> Copy for Point3<F, U, T> {}

impl<F: Frame, U: Unit, T> Point3<F, U, T> {
    /// Creates a point from its three coordinates.
    pub fn new(x: T, y: T, z: T) -> (r: Self)
        ensures
            r == point_of::<F, U, T>(x, y, z),
    {
        Point3 { x, y, z, frame: PhantomData, unit: PhantomData }
    }

    /// The origin: every coordinate is `T::default()`.
    pub fn origin() -> (r: Self)
        where T: Default,
        ensures
            is_default_point(r),
    {
        Self::new(T::default(), T::default(), T::default())
    }

    /// Alias of [`Point3::origin`].
    pub fn zero() -> (r: Self)
        where T: Default,
        ensures
            is_default_point(r),
    {
        Self::origin()
    }

    /// Creates a point from the array `[x, y, z]`.
    pub fn from_array(arr: [T; 3]) -> (r: Self)
        where T: Copy,
        ensures
            r == point_of::<F, U, T>(arr[0], arr[1], arr[2]),
    {
        Self::new(arr[0], arr[1], arr[2])
    }

    /// The coordinates as the array `[x, y, z]`.
    pub fn as_array(self) -> (r: [T; 3])
        where T: Copy,
        ensures
            r@ == seq![self.x, self.y, self.z],
    {
        [self.x, self.y, self.z]
    }

    /// The displacement of this point from the origin, as a vector of the same frame and unit.
    pub fn to_vector(self) -> (r: Vector3<F, U, T>)
        ensures
            r == vector_of::<F, U, T>(self.x, self.y, self.z),
    {
        Vector3::new(self.x, self.y, self.z)
    }
}

impl<F: Frame, U: Unit, T: Default> Default for Point3<F, U, T> {
    fn default() -> (r: Self)
        ensures
            is_default_point(r),
    {
        Self::origin()
    }
}

impl<F: Frame, U: Unit, T: Sub<Output = T>> SubSpecImpl<Point3<F, U, T>> for Point3<F, U, T> {
    open spec fn obeys_sub_spec() -> bool {
        T::obeys_sub_spec()
    }

    open spec fn sub_req(self, rhs: Point3<F, U, T>) -> bool {
        &&& self.x.sub_req(rhs.x)
        &&& self.y.sub_req(rhs.y)
        &&& self.z.sub_req(rhs.z)
    }

    open spec fn sub_spec(self, rhs: Point3<F, U, T>) -> Vector3<F, U, T> {
        displacement(self, rhs)
    }
}

impl<F: Frame, U: Unit, T: Sub<Output = T>> Sub<Point3<F, U, T>> for Point3<F, U, T> {
    type Output = Vector3<F, U, T>;

    /// Point - point: the displacement vector from `rhs` to `self`.
    fn sub(self, rhs: Point3<F, U, T>) -> (r: Vector3<F, U, T>)
        ensures
            T::obeys_sub_spec() ==> r == displacement(self, rhs),
    {
        Vector3::new(self.x - rhs.x, self.y - rhs.y, self.z - rhs.z)
    }
}

impl<F: Frame, U: Unit, T: Add<Output = T>> AddSpecImpl<Vector3<F, U, T>> for Point3<F, U, T> {
    open spec fn obeys_add_spec() -> bool {
        T::obeys_add_spec()
    }

    open spec fn add_req(self, rhs: Vector3<F, U, T>) -> bool {
        &&& self.x.add_req(rhs.x)
        &&& self.y.add_req(rhs.y)
        &&& self.z.add_req(rhs.z)
    }

    open spec fn add_spec(self, rhs: Vector3<F, U, T>) -> Point3<F, U, T> {
        translated(self, rhs)
    }
}

impl<F: Frame, U: Unit, T: Add<Output = T>> Add<Vector3<F, U, T>> for Point3<F, U, T> {
    type Output = Point3<F, U, T>;

    /// Point + vector: the point displaced by `rhs`.
    fn add(self, rhs: Vector3<F, U, T>) -> (r: Point3<F, U, T>)
        ensures
            T::obeys_add_spec() ==> r == translated(self, rhs),
    {
        Point3::new(self.x + rhs.x, self.y + rhs.y, self.z + rhs.z)
    }
}

impl<F: Frame, U: Unit, T: Sub<Output = T>> SubSpecImpl<Vector3<F, U, T>> for Point3<F, U, T> {
    open spec fn obeys_sub_spec() -> bool {
        T::obeys_sub_spec()
    }

    open spec fn sub_req(self, rhs: Vector3<F, U, T>) -> bool {
        &&& self.x.sub_req(rhs.x)
        &&& self.y.sub_req(rhs.y)
        &&& self.z.sub_req(rhs.z)
    }

    open spec fn sub_spec(self, rhs: Vector3<F, U, T>) -> Point3<F, U, T> {
        translated_back(self, rhs)
    }
}

impl<F: Frame, U: Unit, T: Sub<Output = T>> Sub<Vector3<F, U, T>> for Point3<F, U, T> {
    type Output = Point3<F, U, T>;

    /// Point - vector: the point displaced by the opposite of `rhs`.
    fn sub(self, rhs: Vector3<F, U, T>) -> (r: Point3<F, U, T>)
        ensures
            T::obeys_sub_spec() ==> r == translated_back(self, rhs),
    {
        Point3::new(self.x - rhs.x, self.y - rhs.y, self.z - rhs.z)
    }
}

impl<F: Frame, U: Unit, T: Add<Output = T> + Copy> AddAssign<Vector3<F, U, T>> for Point3<
    F,
    U,
    T,
> {
    /// Moves the point by `rhs` in place.
    fn add_assign(&mut self, rhs: Vector3<F, U, T>)
        requires
            old(self).x.add_req(rhs.x),
            old(self).y.add_req(rhs.y),
            old(self).z.add_req(rhs.z),
        ensures
            T::obeys_add_spec() ==> *final(self) == translated(*old(self), rhs),
    {
        self.x = self.x + rhs.x;
        self.y = self.y + rhs.y;
        self.z = self.z + rhs.z;
    }
}

impl<F: Frame, U: Unit, T: Sub<Output = T> + Copy> SubAssign<Vector3<F, U, T>> for Point3<
    F,
    U,
    T,
> {
    /// Moves the point by the opposite of `rhs` in place.
    fn sub_assign(&mut self, rhs: Vector3<F, U, T>)
        requires
            old(self).x.sub_req(rhs.x),
            old(self).y.sub_req(rhs.y),
            old(self).z.sub_req(rhs.z),
        ensures
            T::obeys_sub_spec() ==> *final(self) == translated_back(*old(self), rhs),
    {
        self.x = self.x - rhs.x;
        self.y = self.y - rhs.y;
        self.z = self.z - rhs.z;
    }
}


/// Affine law: moving a point `p` by the displacement from `p` to `q` lands exactly on `q`
/// (point + (q - point) = q), for integer coordinates whose displacement does not overflow.
pub proof fn lemma_translate_by_displacement<F: Frame, U: Unit>(
    p: Point3<F, U, i64>,
    q: Point3<F, U, i64>,
)
    requires
        i64::MIN <= q.x - p.x <= i64::MAX,
        i64::MIN <= q.y - p.y <= i64::MAX,
        i64::MIN <= q.z - p.z <= i64::MAX,
    ensures
        translated(p, displacement(q, p)) == q,
{
}

/// Affine law: moving `q` back by the displacement from `p` to `q` lands exactly on `p`
/// (q - (q - p) = p), for integer coordinates whose displacement does not overflow.
pub proof fn lemma_translate_back_by_displacement<F: Frame, U: Unit>(
    p: Point3<F, U, i64>,
    q: Point3<F, U, i64>,
)
    requires
        i64::MIN <= q.x - p.x <= i64::MAX,
        i64::MIN <= q.y - p.y <= i64::MAX,
        i64::MIN <= q.z - p.z <= i64::MAX,
    ensures
        translated_back(q, displacement(q, p)) == p,
{
}

/// Affine law: the displacement from `p` to `p + v` is `v` ((p + v) - p = v), for integer
/// coordinates where `p + v` does not overflow.
pub proof fn lemma_displacement_of_translation<F: Frame, U: Unit>(
    p: Point3<F, U, i64>,
    v: Vector3<F, U, i64>,
)
    requires
        i64::MIN <= p.x + v.x <= i64::MAX,
        i64::MIN <= p.y + v.y <= i64::MAX,
        i64::MIN <= p.z + v.z <= i64::MAX,
    ensures
        displacement(translated(p, v), p) == v,
{
}

} // verus!
