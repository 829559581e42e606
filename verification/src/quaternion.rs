//! Rotation quaternions between two reference frames.

use core::marker::PhantomData;
use core::ops::{Add, Mul, Neg, Sub};
use vstd::prelude::*;
use vstd::std_specs::convert::FromSpec;
use vstd::std_specs::ops::{AddSpec, MulSpec, MulSpecImpl, NegSpec, SubSpec};

use crate::dcm::{
    determinant, lemma_rotated_exact, lemma_signed_diagonal_is_rotation, orthonormal_columns,
    rotated, rotated_defined, transposed, DirectionCosineMatrix,
};
use crate::frames::Frame;
use crate::linalg::{
    exec_mul, exec_mul_add, exec_mul_sub, mul_add, mul_add_defined, mul_sub, mul_sub_defined,
};
use crate::units::Unit;
use crate::vector::{
    vector_cross, vector_cross_defined, vector_difference, vector_of, vector_scaled, vector_sum,
    Vector3,
};

verus! {

/// A quaternion `[w, x, y, z]` representing the rotation from frame `From` to frame `To`.
#[derive(Debug, PartialEq)]
pub struct Quaternion<From: Frame, To: Frame, T: Copy> {
    /// Scalar (real) part.
    pub w: T,
    /// First imaginary component.
    pub x: T,
    /// Second imaginary component.
    pub y: T,
    /// Third imaginary component.
    pub z: T,
    /// The source-frame tag (zero-sized).
    pub from: PhantomData<From>,
    /// The target-frame tag (zero-sized).
    pub to: PhantomData<To>,
}

/// The quaternion with components `[w, x, y, z]`, as a spec value.
pub open spec fn quaternion_of<From: Frame, To: Frame, T: Copy>(w: T, x: T, y: T, z: T) -> Quaternion<
    From,
    To,
    T,
> {
    Quaternion { w, x, y, z, from: PhantomData, to: PhantomData }
}

/// The conjugate `[w, -x, -y, -z]` of `q`, which rotates the other way (`To` to `From`).
pub open spec fn conjugated<From: Frame, To: Frame, T: Copy + Neg<Output = T>>(
    q: Quaternion<From, To, T>,
) -> Quaternion<To, From, T> {
    quaternion_of(q.w, q.x.neg_spec(), q.y.neg_spec(), q.z.neg_spec())
}

/// `w² + x² + y² + z²`, summed left to right.
pub open spec fn quaternion_norm_sq<From: Frame, To: Frame, T: Copy + Add<Output = T> + Mul<
    Output = T,
>>(q: Quaternion<From, To, T>) -> T {
    mul_add(mul_add(mul_add(q.w.mul_spec(q.w), q.x, q.x), q.y, q.y), q.z, q.z)
}

/// Whether [`quaternion_norm_sq`] is defined.
pub open spec fn quaternion_norm_sq_defined<From: Frame, To: Frame, T: Copy + Add<Output = T> + Mul<
    Output = T,
>>(q: Quaternion<From, To, T>) -> bool {
    &&& q.w.mul_req(q.w)
    &&& mul_add_defined(q.w.mul_spec(q.w), q.x, q.x)
    &&& mul_add_defined(mul_add(q.w.mul_spec(q.w), q.x, q.x), q.y, q.y)
    &&& mul_add_defined(mul_add(mul_add(q.w.mul_spec(q.w), q.x, q.x), q.y, q.y), q.z, q.z)
}

/// The Hamilton product `a * b` (rotation `a` followed by rotation `b`), each component
/// summed left to right as written in the code.
pub open spec fn hamilton_product<A: Frame, B: Frame, C: Frame, T: Copy + Add<Output = T> + Sub<
    Output = T,
> + Mul<Output = T>>(a: Quaternion<A, B, T>, b: Quaternion<B, C, T>) -> Quaternion<A, C, T> {
    quaternion_of(
        mul_sub(mul_sub(mul_sub(a.w.mul_spec(b.w), a.x, b.x), a.y, b.y), a.z, b.z),
        mul_sub(mul_add(mul_add(a.w.mul_spec(b.x), a.x, b.w), a.y, b.z), a.z, b.y),
        mul_add(mul_add(mul_sub(a.w.mul_spec(b.y), a.x, b.z), a.y, b.w), a.z, b.x),
        mul_add(mul_sub(mul_add(a.w.mul_spec(b.z), a.x, b.y), a.y, b.x), a.z, b.w),
    )
}

/// Whether every step of the Hamilton product `a * b` is defined.
pub open spec fn hamilton_product_defined<A: Frame, B: Frame, C: Frame, T: Copy + Add<
    Output = T,
> + Sub<Output = T> + Mul<Output = T>>(a: Quaternion<A, B, T>, b: Quaternion<B, C, T>) -> bool {
    &&& a.w.mul_req(b.w) && a.w.mul_req(b.x) && a.w.mul_req(b.y) && a.w.mul_req(b.z)
    &&& mul_sub_defined(a.w.mul_spec(b.w), a.x, b.x)
    &&& mul_sub_defined(mul_sub(a.w.mul_spec(b.w), a.x, b.x), a.y, b.y)
    &&& mul_sub_defined(mul_sub(mul_sub(a.w.mul_spec(b.w), a.x, b.x), a.y, b.y), a.z, b.z)
    &&& mul_add_defined(a.w.mul_spec(b.x), a.x, b.w)
    &&& mul_add_defined(mul_add(a.w.mul_spec(b.x), a.x, b.w), a.y, b.z)
    &&& mul_sub_defined(mul_add(mul_add(a.w.mul_spec(b.x), a.x, b.w), a.y, b.z), a.z, b.y)
    &&& mul_sub_defined(a.w.mul_spec(b.y), a.x, b.z)
    &&& mul_add_defined(mul_sub(a.w.mul_spec(b.y), a.x, b.z), a.y, b.w)
    &&& mul_add_defined(mul_add(mul_sub(a.w.mul_spec(b.y), a.x, b.z), a.y, b.w), a.z, b.x)
    &&& mul_add_defined(a.w.mul_spec(b.z), a.x, b.y)
    &&& mul_sub_defined(mul_add(a.w.mul_spec(b.z), a.x, b.y), a.y, b.x)
    &&& mul_add_defined(mul_sub(mul_add(a.w.mul_spec(b.z), a.x, b.y), a.y, b.x), a.z, b.w)
}

/// The rotation matrix of `q`, given the coordinate values `one` and `two`:
/// `[[1 - 2(y²+z²), 2(xy+wz), 2(xz-wy)], [2(xy-wz), 1 - 2(x²+z²), 2(yz+wx)],
/// [2(xz+wy), 2(yz-wx), 1 - 2(x²+y²)]]`.
pub open spec fn quaternion_matrix<From: Frame, To: Frame, T: Copy + Add<Output = T> + Sub<
    Output = T,
> + Mul<Output = T>>(q: Quaternion<From, To, T>, one: T, two: T) -> [[T; 3]; 3] {
    let (w, x, y, z) = (q.w, q.x, q.y, q.z);
    let (xx, yy, zz) = (x.mul_spec(x), y.mul_spec(y), z.mul_spec(z));
    let (xy, xz, yz) = (x.mul_spec(y), x.mul_spec(z), y.mul_spec(z));
    let (wx, wy, wz) = (w.mul_spec(x), w.mul_spec(y), w.mul_spec(z));
    [
        [
            one.sub_spec(two.mul_spec(yy.add_spec(zz))),
            two.mul_spec(xy.add_spec(wz)),
            two.mul_spec(xz.sub_spec(wy)),
        ],
        [
            two.mul_spec(xy.sub_spec(wz)),
            one.sub_spec(two.mul_spec(xx.add_spec(zz))),
            two.mul_spec(yz.add_spec(wx)),
        ],
        [
            two.mul_spec(xz.add_spec(wy)),
            two.mul_spec(yz.sub_spec(wx)),
            one.sub_spec(two.mul_spec(xx.add_spec(yy))),
        ],
    ]
}

/// Whether every step of [`quaternion_matrix`] is defined.
pub open spec fn quaternion_matrix_defined<From: Frame, To: Frame, T: Copy + Add<Output = T> + Sub<
    Output = T,
> + Mul<Output = T>>(q: Quaternion<From, To, T>, one: T, two: T) -> bool {
    let (w, x, y, z) = (q.w, q.x, q.y, q.z);
    let (xx, yy, zz) = (x.mul_spec(x), y.mul_spec(y), z.mul_spec(z));
    let (xy, xz, yz) = (x.mul_spec(y), x.mul_spec(z), y.mul_spec(z));
    let (wx, wy, wz) = (w.mul_spec(x), w.mul_spec(y), w.mul_spec(z));
    &&& x.mul_req(x) && y.mul_req(y) && z.mul_req(z)
    &&& x.mul_req(y) && x.mul_req(z) && y.mul_req(z)
    &&& w.mul_req(x) && w.mul_req(y) && w.mul_req(z)
    &&& yy.add_req(zz) && two.mul_req(yy.add_spec(zz)) && one.sub_req(two.mul_spec(yy.add_spec(zz)))
    &&& xy.add_req(wz) && two.mul_req(xy.add_spec(wz))
    &&& xz.sub_req(wy) && two.mul_req(xz.sub_spec(wy))
    &&& xy.sub_req(wz) && two.mul_req(xy.sub_spec(wz))
    &&& xx.add_req(zz) && two.mul_req(xx.add_spec(zz)) && one.sub_req(two.mul_spec(xx.add_spec(zz)))
    &&& yz.add_req(wx) && two.mul_req(yz.add_spec(wx))
    &&& xz.add_req(wy) && two.mul_req(xz.add_spec(wy))
    &&& yz.sub_req(wx) && two.mul_req(yz.sub_spec(wx))
    &&& xx.add_req(yy) && two.mul_req(xx.add_spec(yy)) && one.sub_req(two.mul_spec(xx.add_spec(yy)))
}

/// The imaginary part `(x, y, z)` of `q`, as a vector of the source frame.
pub open spec fn imaginary_part<From: Frame, To: Frame, U: Unit, T: Copy>(
    q: Quaternion<From, To, T>,
) -> Vector3<From, U, T> {
    vector_of(q.x, q.y, q.z)
}

/// `q* v q` computed as `v - (u × v)(2w) + (u × (u × v)) 2`, with `u` the imaginary part of
/// `q` and `two` the coordinate value 2.
pub open spec fn quaternion_rotated<From: Frame, To: Frame, U: Unit, T: Copy + Add<Output = T>
    + Sub<Output = T> + Mul<Output = T>>(
    q: Quaternion<From, To, T>,
    v: Vector3<From, U, T>,
    two: T,
) -> Vector3<To, U, T> {
    let u = imaginary_part::<From, To, U, T>(q);
    let uv = vector_cross(u, v);
    let uuv = vector_cross(u, uv);
    let rotated = vector_sum(
        vector_difference(v, vector_scaled(uv, two.mul_spec(q.w))),
        vector_scaled(uuv, two),
    );
    vector_of(rotated.x, rotated.y, rotated.z)
}

/// Whether every step of [`quaternion_rotated`] is defined.
pub open spec fn quaternion_rotated_defined<From: Frame, To: Frame, U: Unit, T: Copy + Add<
    Output = T,
> + Sub<Output = T> + Mul<Output = T>>(
    q: Quaternion<From, To, T>,
    v: Vector3<From, U, T>,
    two: T,
) -> bool {
    let u = imaginary_part::<From, To, U, T>(q);
    let uv = vector_cross(u, v);
    let uuv = vector_cross(u, uv);
    let s = two.mul_spec(q.w);
    let a = vector_scaled(uv, s);
    let d = vector_difference(v, a);
    let b = vector_scaled(uuv, two);
    &&& vector_cross_defined(u, v)
    &&& vector_cross_defined(u, uv)
    &&& two.mul_req(q.w)
    &&& uv.x.mul_req(s) && uv.y.mul_req(s) && uv.z.mul_req(s)
    &&& v.x.sub_req(a.x) && v.y.sub_req(a.y) && v.z.sub_req(a.z)
    &&& uuv.x.mul_req(two) && uuv.y.mul_req(two) && uuv.z.mul_req(two)
    &&& d.x.add_req(b.x) && d.y.add_req(b.y) && d.z.add_req(b.z)
}

impl<From: Frame, To: Frame, T: Copy> Clone for Quaternion<From, To, T> {
    fn clone(&self) -> (r: Self)
        ensures
            r == *self,
    {
        *self
    }
}

impl<From: Frame, To: Frame, T: Copy> Copy for Quaternion<From, To, T> {}

impl<From: Frame, To: Frame, T: Copy> Quaternion<From, To, T> {
    /// Creates the quaternion `[w, x, y, z]` (unchecked: the norm is not validated).
    pub fn new(w: T, x: T, y: T, z: T) -> (r: Self)
        ensures
            r == quaternion_of::<From, To, T>(w, x, y, z),
    {
        Quaternion { w, x, y, z, from: PhantomData, to: PhantomData }
    }
}

impl<From: Frame, To: Frame, T: Copy + Neg<Output = T>> Quaternion<From, To, T> {
    /// The conjugate quaternion, representing the inverse rotation (`To` to `From`).
    pub fn conjugate(&self) -> (r: Quaternion<To, From, T>)
        requires
            self.x.neg_req(),
            self.y.neg_req(),
            self.z.neg_req(),
        ensures
            r.w == self.w,
            T::obeys_neg_spec() ==> r == conjugated(*self),
    {
        Quaternion::new(self.w, self.x.neg(), self.y.neg(), self.z.neg())
    }
}

impl<From: Frame, To: Frame, T: Copy + Add<Output = T> + Mul<Output = T>> Quaternion<From, To, T> {
    /// Squared norm `w² + x² + y² + z²`.
    pub fn norm_sq(self) -> (r: T)
        requires
            T::obeys_add_spec(),
            T::obeys_mul_spec(),
            quaternion_norm_sq_defined(self),
        ensures
            r == quaternion_norm_sq(self),
    {
        exec_mul_add(
            exec_mul_add(exec_mul_add(exec_mul(self.w, self.w), self.x, self.x), self.y, self.y),
            self.z,
            self.z,
        )
    }
}

/// The coordinate value of the integer `k`, as `T::from(k)` gives it. For the signed integer
/// types from `i16` up, vstd's specification of that conversion makes it `k` itself, so that
/// the laws below, stated with the literals `1i64` and `2i64`, apply to [`Quaternion::to_dcm`]
/// and [`Quaternion::rotate_vector`] at `i64`.
pub open spec fn coordinate<T: core::convert::From<i8>>(k: i8) -> T {
    <T as FromSpec<i8>>::from_spec(k)
}

impl<
    From: Frame,
    To: Frame,
    T: Copy + Add<Output = T> + Sub<Output = T> + Mul<Output = T> + core::convert::From<i8>,
> Quaternion<From, To, T> {
    /// The direction cosine matrix of this rotation.
    pub fn to_dcm(&self) -> (r: DirectionCosineMatrix<From, To, T>)
        requires
            T::obeys_add_spec(),
            T::obeys_sub_spec(),
            T::obeys_mul_spec(),
            <T as FromSpec<i8>>::obeys_from_spec(),
            quaternion_matrix_defined(*self, coordinate::<T>(1), coordinate::<T>(2)),
        ensures
            r.m == quaternion_matrix(*self, coordinate::<T>(1), coordinate::<T>(2)),
    {
        let one = T::from(1i8);
        let two = T::from(2i8);
        let (w, x, y, z) = (self.w, self.x, self.y, self.z);
        let xx = x * x;
        let yy = y * y;
        let zz = z * z;
        let xy = x * y;
        let xz = x * z;
        let yz = y * z;
        let wx = w * x;
        let wy = w * y;
        let wz = w * z;
        let r = DirectionCosineMatrix::from_rows(
            [one - two * (yy + zz), two * (xy + wz), two * (xz - wy)],
            [two * (xy - wz), one - two * (xx + zz), two * (yz + wx)],
            [two * (xz + wy), two * (yz - wx), one - two * (xx + yy)],
        );
        assert(r.m[0] =~= quaternion_matrix(*self, one, two)[0]);
        assert(r.m[1] =~= quaternion_matrix(*self, one, two)[1]);
        assert(r.m[2] =~= quaternion_matrix(*self, one, two)[2]);
        assert(r.m =~= quaternion_matrix(*self, one, two));
        r
    }

    /// Rotates a vector of `From` into `To` with the passive sandwich product `q* v q`
    /// (the convention of [`DirectionCosineMatrix::rotate_vector`]).
    pub fn rotate_vector<U: Unit>(&self, v: Vector3<From, U, T>) -> (r: Vector3<To, U, T>)
        requires
            T::obeys_add_spec(),
            T::obeys_sub_spec(),
            T::obeys_mul_spec(),
            <T as FromSpec<i8>>::obeys_from_spec(),
            quaternion_rotated_defined(*self, v, coordinate::<T>(2)),
        ensures
            r == quaternion_rotated(*self, v, coordinate::<T>(2)),
    {
        let two = T::from(2i8);
        let q_vec = Vector3::<From, U, T>::new(self.x, self.y, self.z);
        let uv = q_vec.cross(v);
        let uuv = q_vec.cross(uv);
        let rotated = v - (uv * (two * self.w)) + (uuv * two);
        let r = Vector3::new(rotated.x, rotated.y, rotated.z);
        assert(r == quaternion_rotated(*self, v, two));
        r
    }
}

impl<
    A: Frame,
    B: Frame,
    C: Frame,
    T: Copy + Add<Output = T> + Sub<Output = T> + Mul<Output = T>,
> MulSpecImpl<Quaternion<B, C, T>> for Quaternion<A, B, T> {
    open spec fn obeys_mul_spec() -> bool {
        T::obeys_add_spec() && T::obeys_sub_spec() && T::obeys_mul_spec()
    }

    open spec fn mul_req(self, rhs: Quaternion<B, C, T>) -> bool {
        &&& T::obeys_add_spec()
        &&& T::obeys_sub_spec()
        &&& T::obeys_mul_spec()
        &&& hamilton_product_defined(self, rhs)
    }

    open spec fn mul_spec(self, rhs: Quaternion<B, C, T>) -> Quaternion<A, C, T> {
        hamilton_product(self, rhs)
    }
}

impl<
    A: Frame,
    B: Frame,
    C: Frame,
    T: Copy + Add<Output = T> + Sub<Output = T> + Mul<Output = T>,
> Mul<Quaternion<B, C, T>> for Quaternion<A, B, T> {
    type Output = Quaternion<A, C, T>;

    /// Composition `Q_A→B * Q_B→C = Q_A→C` (the Hamilton product).
    fn mul(self, rhs: Quaternion<B, C, T>) -> (r: Quaternion<A, C, T>)
        ensures
            r == hamilton_product(self, rhs),
    {
        let w = exec_mul_sub(
            exec_mul_sub(exec_mul_sub(exec_mul(self.w, rhs.w), self.x, rhs.x), self.y, rhs.y),
            self.z,
            rhs.z,
        );
        let x = exec_mul_sub(
            exec_mul_add(exec_mul_add(exec_mul(self.w, rhs.x), self.x, rhs.w), self.y, rhs.z),
            self.z,
            rhs.y,
        );
        let y = exec_mul_add(
            exec_mul_add(exec_mul_sub(exec_mul(self.w, rhs.y), self.x, rhs.z), self.y, rhs.w),
            self.z,
            rhs.x,
        );
        let z = exec_mul_add(
            exec_mul_sub(exec_mul_add(exec_mul(self.w, rhs.z), self.x, rhs.y), self.y, rhs.x),
            self.z,
            rhs.w,
        );
        Quaternion::new(w, x, y, z)
    }
}

/// For integer components, a defined Hamilton product is the exact one:
/// `(w₁w₂ - x₁x₂ - y₁y₂ - z₁z₂, w₁x₂ + x₁w₂ + y₁z₂ - z₁y₂, w₁y₂ - x₁z₂ + y₁w₂ + z₁x₂,
/// w₁z₂ + x₁y₂ - y₁x₂ + z₁w₂)`.
pub proof fn lemma_hamilton_product_exact<A: Frame, B: Frame, C: Frame>(
    a: Quaternion<A, B, i64>,
    b: Quaternion<B, C, i64>,
)
    requires
        hamilton_product_defined(a, b),
    ensures
        hamilton_product(a, b).w as int == a.w * b.w - a.x * b.x - a.y * b.y - a.z * b.z,
        hamilton_product(a, b).x as int == a.w * b.x + a.x * b.w + a.y * b.z - a.z * b.y,
        hamilton_product(a, b).y as int == a.w * b.y - a.x * b.z + a.y * b.w + a.z * b.x,
        hamilton_product(a, b).z as int == a.w * b.z + a.x * b.y - a.y * b.x + a.z * b.w,
{
}

/// Agreement law: rotating a vector with the quaternion's sandwich product gives the same
/// vector as rotating it with the quaternion's matrix, for integer coordinates (with the
/// coordinate values 1 and 2) where every step of both computations is defined.
pub proof fn lemma_rotation_matches_matrix<A: Frame, B: Frame, U: Unit>(
    q: Quaternion<A, B, i64>,
    v: Vector3<A, U, i64>,
)
    requires
        quaternion_rotated_defined(q, v, 2i64),
        quaternion_matrix_defined(q, 1i64, 2i64),
        rotated_defined(quaternion_matrix(q, 1i64, 2i64), v),
    ensures
        quaternion_rotated(q, v, 2i64) == rotated::<A, B, U, i64>(
            quaternion_matrix(q, 1i64, 2i64),
            v,
        ),
{
    let m = quaternion_matrix(q, 1i64, 2i64);
    lemma_rotated_exact::<A, B, U>(m, v);
    let (w, x, y, z) = (q.w as int, q.x as int, q.y as int, q.z as int);
    let (v0, v1, v2) = (v.x as int, v.y as int, v.z as int);
    lemma_sandwich_components(w, x, y, z, v0, v1, v2);
    let r = quaternion_rotated(q, v, 2i64);
    assert(r.x as int == v0 - (y * v2 - z * v1) * (2 * w) + (y * (x * v1 - y * v0) - z * (z
        * v0 - x * v2)) * 2);
    assert(r.y as int == v1 - (z * v0 - x * v2) * (2 * w) + (z * (y * v2 - z * v1) - x * (x
        * v1 - y * v0)) * 2);
    assert(r.z as int == v2 - (x * v1 - y * v0) * (2 * w) + (x * (z * v0 - x * v2) - y * (y
        * v2 - z * v1)) * 2);
}

/// Agreement law for unit quaternions: for an integer unit quaternion and a vector whose
/// coordinates lie within ±2⁵⁹, rotating with the sandwich product and rotating with the
/// quaternion's matrix are both defined and give the same vector.
pub proof fn lemma_unit_rotation_matches_matrix<A: Frame, B: Frame, U: Unit>(
    q: Quaternion<A, B, i64>,
    v: Vector3<A, U, i64>,
)
    requires
        q.w * q.w + q.x * q.x + q.y * q.y + q.z * q.z == 1,
        -0x0800_0000_0000_0000 <= v.x <= 0x0800_0000_0000_0000,
        -0x0800_0000_0000_0000 <= v.y <= 0x0800_0000_0000_0000,
        -0x0800_0000_0000_0000 <= v.z <= 0x0800_0000_0000_0000,
    ensures
        quaternion_rotated_defined(q, v, 2i64),
        rotated_defined(quaternion_matrix(q, 1i64, 2i64), v),
        quaternion_rotated(q, v, 2i64) == rotated::<A, B, U, i64>(
            quaternion_matrix(q, 1i64, 2i64),
            v,
        ),
{
    lemma_integer_unit(q.w as int, q.x as int, q.y as int, q.z as int);
    lemma_unit_quaternion_matrix_is_rotation(q);
    if q.w == 1 {
        assert(quaternion_rotated_defined(q, v, 2i64) && rotated_defined(
            quaternion_matrix(q, 1i64, 2i64),
            v,
        )) by (nonlinear_arith)
            requires
                q.w == 1 && q.x == 0 && q.y == 0 && q.z == 0,
                -0x0800_0000_0000_0000 <= v.x <= 0x0800_0000_0000_0000,
                -0x0800_0000_0000_0000 <= v.y <= 0x0800_0000_0000_0000,
                -0x0800_0000_0000_0000 <= v.z <= 0x0800_0000_0000_0000,
        ;
    } else if q.w == -1 {
        assert(quaternion_rotated_defined(q, v, 2i64) && rotated_defined(
            quaternion_matrix(q, 1i64, 2i64),
            v,
        )) by (nonlinear_arith)
            requires
                q.w == -1 && q.x == 0 && q.y == 0 && q.z == 0,
                -0x0800_0000_0000_0000 <= v.x <= 0x0800_0000_0000_0000,
                -0x0800_0000_0000_0000 <= v.y <= 0x0800_0000_0000_0000,
                -0x0800_0000_0000_0000 <= v.z <= 0x0800_0000_0000_0000,
        ;
    } else if q.x == 1 {
        assert(quaternion_rotated_defined(q, v, 2i64) && rotated_defined(
            quaternion_matrix(q, 1i64, 2i64),
            v,
        )) by (nonlinear_arith)
            requires
                q.x == 1 && q.w == 0 && q.y == 0 && q.z == 0,
                -0x0800_0000_0000_0000 <= v.x <= 0x0800_0000_0000_0000,
                -0x0800_0000_0000_0000 <= v.y <= 0x0800_0000_0000_0000,
                -0x0800_0000_0000_0000 <= v.z <= 0x0800_0000_0000_0000,
        ;
    } else if q.x == -1 {
        assert(quaternion_rotated_defined(q, v, 2i64) && rotated_defined(
            quaternion_matrix(q, 1i64, 2i64),
            v,
        )) by (nonlinear_arith)
            requires
                q.x == -1 && q.w == 0 && q.y == 0 && q.z == 0,
                -0x0800_0000_0000_0000 <= v.x <= 0x0800_0000_0000_0000,
                -0x0800_0000_0000_0000 <= v.y <= 0x0800_0000_0000_0000,
                -0x0800_0000_0000_0000 <= v.z <= 0x0800_0000_0000_0000,
        ;
    } else if q.y == 1 {
        assert(quaternion_rotated_defined(q, v, 2i64) && rotated_defined(
            quaternion_matrix(q, 1i64, 2i64),
            v,
        )) by (nonlinear_arith)
            requires
                q.y == 1 && q.w == 0 && q.x == 0 && q.z == 0,
                -0x0800_0000_0000_0000 <= v.x <= 0x0800_0000_0000_0000,
                -0x0800_0000_0000_0000 <= v.y <= 0x0800_0000_0000_0000,
                -0x0800_0000_0000_0000 <= v.z <= 0x0800_0000_0000_0000,
        ;
    } else if q.y == -1 {
        assert(quaternion_rotated_defined(q, v, 2i64) && rotated_defined(
            quaternion_matrix(q, 1i64, 2i64),
            v,
        )) by (nonlinear_arith)
            requires
                q.y == -1 && q.w == 0 && q.x == 0 && q.z == 0,
                -0x0800_0000_0000_0000 <= v.x <= 0x0800_0000_0000_0000,
                -0x0800_0000_0000_0000 <= v.y <= 0x0800_0000_0000_0000,
                -0x0800_0000_0000_0000 <= v.z <= 0x0800_0000_0000_0000,
        ;
    } else if q.z == 1 {
        assert(quaternion_rotated_defined(q, v, 2i64) && rotated_defined(
            quaternion_matrix(q, 1i64, 2i64),
            v,
        )) by (nonlinear_arith)
            requires
                q.z == 1 && q.w == 0 && q.x == 0 && q.y == 0,
                -0x0800_0000_0000_0000 <= v.x <= 0x0800_0000_0000_0000,
                -0x0800_0000_0000_0000 <= v.y <= 0x0800_0000_0000_0000,
                -0x0800_0000_0000_0000 <= v.z <= 0x0800_0000_0000_0000,
        ;
    } else if q.z == -1 {
        assert(quaternion_rotated_defined(q, v, 2i64) && rotated_defined(
            quaternion_matrix(q, 1i64, 2i64),
            v,
        )) by (nonlinear_arith)
            requires
                q.z == -1 && q.w == 0 && q.x == 0 && q.y == 0,
                -0x0800_0000_0000_0000 <= v.x <= 0x0800_0000_0000_0000,
                -0x0800_0000_0000_0000 <= v.y <= 0x0800_0000_0000_0000,
                -0x0800_0000_0000_0000 <= v.z <= 0x0800_0000_0000_0000,
        ;
    }
    lemma_rotation_matches_matrix(q, v);
}

/// Proper-rotation law: the matrix of an integer unit quaternion (with the coordinate values
/// 1 and 2) is defined, has orthonormal columns and has determinant 1.
pub proof fn lemma_unit_quaternion_matrix_is_rotation<A: Frame, B: Frame>(
    q: Quaternion<A, B, i64>,
)
    requires
        q.w * q.w + q.x * q.x + q.y * q.y + q.z * q.z == 1,
    ensures
        quaternion_matrix_defined(q, 1i64, 2i64),
        orthonormal_columns(quaternion_matrix(q, 1i64, 2i64)),
        determinant(quaternion_matrix(q, 1i64, 2i64)) == 1,
{
    let (w, x, y, z) = (q.w as int, q.x as int, q.y as int, q.z as int);
    lemma_integer_unit(w, x, y, z);
    assert(quaternion_matrix_defined(q, 1i64, 2i64)) by (nonlinear_arith)
        requires
            -1 <= q.w <= 1 && -1 <= q.x <= 1 && -1 <= q.y <= 1 && -1 <= q.z <= 1,
    ;
    let (s, t, u) = (x * x, y * y, z * z);
    assert(w * x == 0 && w * y == 0 && w * z == 0 && x * y == 0 && x * z == 0 && y * z == 0
        && 0 <= s && 0 <= t && 0 <= u && s + t + u <= 1) by (nonlinear_arith)
        requires
            (w == 1 || w == -1) && x == 0 && y == 0 && z == 0 || (x == 1 || x == -1) && w == 0
                && y == 0 && z == 0 || (y == 1 || y == -1) && w == 0 && x == 0 && z == 0 || (z
                == 1 || z == -1) && w == 0 && x == 0 && y == 0,
            s == x * x && t == y * y && u == z * z,
    ;
    let m = quaternion_matrix(q, 1i64, 2i64);
    assert(m[0][0] == 1 - 2 * (t + u) && m[1][1] == 1 - 2 * (s + u) && m[2][2] == 1 - 2 * (s
        + t));
    assert(m[0][0] * m[1][1] * m[2][2] == 1) by (nonlinear_arith)
        requires
            m[0][0] == 1 - 2 * (t + u) && m[1][1] == 1 - 2 * (s + u) && m[2][2] == 1 - 2 * (s + t),
            0 <= s && 0 <= t && 0 <= u && s + t + u <= 1,
    ;
    lemma_signed_diagonal_is_rotation(m);
}

/// Inverse-rotation law: the matrix of the conjugate is the transpose of the matrix of `q`,
/// for integer components whose negation does not overflow and where every step of the
/// matrix of `q` is defined (then every step of the conjugate's matrix is defined too).
pub proof fn lemma_conjugate_matrix_is_transpose<A: Frame, B: Frame>(q: Quaternion<A, B, i64>)
    requires
        q.x != i64::MIN,
        q.y != i64::MIN,
        q.z != i64::MIN,
        quaternion_matrix_defined(q, 1i64, 2i64),
    ensures
        quaternion_matrix_defined(conjugated(q), 1i64, 2i64),
        quaternion_matrix(conjugated(q), 1i64, 2i64) == transposed(
            quaternion_matrix(q, 1i64, 2i64),
        ),
{
    let (w, x, y, z) = (q.w as int, q.x as int, q.y as int, q.z as int);
    assert((-x) * (-x) == x * x && (-y) * (-y) == y * y && (-z) * (-z) == z * z
        && (-x) * (-y) == x * y && (-x) * (-z) == x * z && (-y) * (-z) == y * z
        && w * (-x) == -(w * x) && w * (-y) == -(w * y) && w * (-z) == -(w * z))
        by (nonlinear_arith);
    let c = conjugated(q);
    assert(c.x as int == -x && c.y as int == -y && c.z as int == -z && c.w == q.w);
    let (mc, mt) = (quaternion_matrix(c, 1i64, 2i64), transposed(quaternion_matrix(q, 1i64, 2i64)));
    assert(mc[0] =~= mt[0]);
    assert(mc[1] =~= mt[1]);
    assert(mc[2] =~= mt[2]);
    assert(mc =~= mt);
}

/// The sandwich-product formula and the rotation-matrix formula agree, over the integers.
proof fn lemma_sandwich_components(w: int, x: int, y: int, z: int, v0: int, v1: int, v2: int)
    ensures
        v0 - (y * v2 - z * v1) * (2 * w) + (y * (x * v1 - y * v0) - z * (z * v0 - x * v2)) * 2
            == (1 - 2 * (y * y + z * z)) * v0 + 2 * (x * y + w * z) * v1 + 2 * (x * z - w * y)
            * v2,
        v1 - (z * v0 - x * v2) * (2 * w) + (z * (y * v2 - z * v1) - x * (x * v1 - y * v0)) * 2
            == 2 * (x * y - w * z) * v0 + (1 - 2 * (x * x + z * z)) * v1 + 2 * (y * z + w * x)
            * v2,
        v2 - (x * v1 - y * v0) * (2 * w) + (x * (z * v0 - x * v2) - y * (y * v2 - z * v1)) * 2
            == 2 * (x * z + w * y) * v0 + 2 * (y * z - w * x) * v1 + (1 - 2 * (x * x + y * y))
            * v2,
{
    lemma_sandwich_first(w, x, y, z, v0, v1, v2);
    lemma_sandwich_first(w, y, z, x, v1, v2, v0);
    lemma_sandwich_first(w, z, x, y, v2, v0, v1);
}

/// First component of [`lemma_sandwich_components`]; the others follow by cycling the axes.
proof fn lemma_sandwich_first(w: int, x: int, y: int, z: int, v0: int, v1: int, v2: int)
    ensures
        v0 - (y * v2 - z * v1) * (2 * w) + (y * (x * v1 - y * v0) - z * (z * v0 - x * v2)) * 2
            == (1 - 2 * (y * y + z * z)) * v0 + 2 * (x * y + w * z) * v1 + 2 * (x * z - w * y)
            * v2,
{
    assert((y * v2 - z * v1) * (2 * w) == 2 * (w * y) * v2 - 2 * (w * z) * v1) by (nonlinear_arith);
    assert(y * (x * v1 - y * v0) == (x * y) * v1 - (y * y) * v0) by (nonlinear_arith);
    assert(z * (z * v0 - x * v2) == (z * z) * v0 - (x * z) * v2) by (nonlinear_arith);
    assert((1 - 2 * (y * y + z * z)) * v0 == v0 - 2 * ((y * y) * v0) - 2 * ((z * z) * v0))
        by (nonlinear_arith);
    assert(2 * (x * y + w * z) * v1 == 2 * ((x * y) * v1) + 2 * ((w * z) * v1)) by (nonlinear_arith);
    assert(2 * (x * z - w * y) * v2 == 2 * ((x * z) * v2) - 2 * ((w * y) * v2)) by (nonlinear_arith);
    assert(2 * (w * y) * v2 == 2 * ((w * y) * v2)) by (nonlinear_arith);
    assert(2 * (w * z) * v1 == 2 * ((w * z) * v1)) by (nonlinear_arith);
}

/// `q* v q` over the integers, in matrix form.
pub open spec fn sandwich_int(w: int, x: int, y: int, z: int, v0: int, v1: int, v2: int) -> (
    int,
    int,
    int,
) {
    (
        (1 - 2 * (y * y + z * z)) * v0 + 2 * (x * y + w * z) * v1 + 2 * (x * z - w * y) * v2,
        2 * (x * y - w * z) * v0 + (1 - 2 * (x * x + z * z)) * v1 + 2 * (y * z + w * x) * v2,
        2 * (x * z + w * y) * v0 + 2 * (y * z - w * x) * v1 + (1 - 2 * (x * x + y * y)) * v2,
    )
}

/// For integer coordinates, a defined sandwich-product rotation is the exact one.
pub proof fn lemma_rotated_by_quaternion_exact<A: Frame, B: Frame, U: Unit>(
    q: Quaternion<A, B, i64>,
    v: Vector3<A, U, i64>,
)
    requires
        quaternion_rotated_defined(q, v, 2i64),
    ensures
        ({
            let r = quaternion_rotated(q, v, 2i64);
            (r.x as int, r.y as int, r.z as int) == sandwich_int(
                q.w as int,
                q.x as int,
                q.y as int,
                q.z as int,
                v.x as int,
                v.y as int,
                v.z as int,
            )
        }),
{
    let (w, x, y, z) = (q.w as int, q.x as int, q.y as int, q.z as int);
    let (v0, v1, v2) = (v.x as int, v.y as int, v.z as int);
    lemma_sandwich_components(w, x, y, z, v0, v1, v2);
}

/// An integer quaternion of unit norm has one component equal to ±1 and the others 0.
proof fn lemma_integer_unit(w: int, x: int, y: int, z: int)
    requires
        w * w + x * x + y * y + z * z == 1,
    ensures
        (w == 1 || w == -1) && x == 0 && y == 0 && z == 0 || (x == 1 || x == -1) && w == 0 && y
            == 0 && z == 0 || (y == 1 || y == -1) && w == 0 && x == 0 && z == 0 || (z == 1 || z
            == -1) && w == 0 && x == 0 && y == 0,
{
    lemma_square_at_most_one(w);
    lemma_square_at_most_one(x);
    lemma_square_at_most_one(y);
    lemma_square_at_most_one(z);
}

/// An integer whose square is at most 1 is -1, 0 or 1; every square is non-negative.
proof fn lemma_square_at_most_one(a: int)
    ensures
        a * a <= 1 ==> (a == -1 || a == 0 || a == 1),
        a * a >= 0,
{
    if a >= 2 {
        assert(a * a >= 2 * a) by (nonlinear_arith)
            requires
                a >= 2,
        ;
    } else if a <= -2 {
        assert(a * a >= -2 * a) by (nonlinear_arith)
            requires
                a <= -2,
        ;
    } else {
        assert(a == -1 || a == 0 || a == 1);
        assert(a * a >= 0) by (nonlinear_arith);
    }
}

/// Whether rotating `v` by the product of the two quaternions equals rotating it by the
/// first and then by the second, over the integers.
pub open spec fn composes_int(
    w1: int, x1: int, y1: int, z1: int,
    w2: int, x2: int, y2: int, z2: int,
    v0: int, v1: int, v2: int,
) -> bool {
    let first = sandwich_int(w1, x1, y1, z1, v0, v1, v2);
    sandwich_int(
        w1 * w2 - x1 * x2 - y1 * y2 - z1 * z2,
        w1 * x2 + x1 * w2 + y1 * z2 - z1 * y2,
        w1 * y2 - x1 * z2 + y1 * w2 + z1 * x2,
        w1 * z2 + x1 * y2 - y1 * x2 + z1 * w2,
        v0,
        v1,
        v2,
    ) == sandwich_int(w2, x2, y2, z2, first.0, first.1, first.2)
}

/// Composition law over the integers: rotating by the product of two unit quaternions
/// equals rotating by the first and then by the second.
proof fn lemma_unit_composition_int(
    w1: int, x1: int, y1: int, z1: int,
    w2: int, x2: int, y2: int, z2: int,
    v0: int, v1: int, v2: int,
)
    requires
        w1 * w1 + x1 * x1 + y1 * y1 + z1 * z1 == 1,
        w2 * w2 + x2 * x2 + y2 * y2 + z2 * z2 == 1,
    ensures
        composes_int(w1, x1, y1, z1, w2, x2, y2, z2, v0, v1, v2),
{
    lemma_integer_unit(w1, x1, y1, z1);
    lemma_integer_unit(w2, x2, y2, z2);
    if w1 == 1 {
        assert(x1 == 0 && y1 == 0 && z1 == 0);
        if w2 == 1 {
            assert(composes_int(w1, x1, y1, z1, w2, x2, y2, z2, v0, v1, v2)) by (nonlinear_arith)
                requires w1 == 1, x1 == 0, y1 == 0, z1 == 0,
                    w2 == 1, x2 == 0, y2 == 0, z2 == 0;
        } else if w2 == -1 {
            assert(composes_int(w1, x1, y1, z1, w2, x2, y2, z2, v0, v1, v2)) by (nonlinear_arith)
                requires w1 == 1, x1 == 0, y1 == 0, z1 == 0,
                    w2 == -1, x2 == 0, y2 == 0, z2 == 0;
        } else if x2 == 1 {
            assert(composes_int(w1, x1, y1, z1, w2, x2, y2, z2, v0, v1, v2)) by (nonlinear_arith)
                requires w1 == 1, x1 == 0, y1 == 0, z1 == 0,
                    x2 == 1, w2 == 0, y2 == 0, z2 == 0;
        } else if x2 == -1 {
            assert(composes_int(w1, x1, y1, z1, w2, x2, y2, z2, v0, v1, v2)) by (nonlinear_arith)
                requires w1 == 1, x1 == 0, y1 == 0, z1 == 0,
                    x2 == -1, w2 == 0, y2 == 0, z2 == 0;
        } else if y2 == 1 {
            assert(composes_int(w1, x1, y1, z1, w2, x2, y2, z2, v0, v1, v2)) by (nonlinear_arith)
                requires w1 == 1, x1 == 0, y1 == 0, z1 == 0,
                    y2 == 1, w2 == 0, x2 == 0, z2 == 0;
        } else if y2 == -1 {
            assert(composes_int(w1, x1, y1, z1, w2, x2, y2, z2, v0, v1, v2)) by (nonlinear_arith)
                requires w1 == 1, x1 == 0, y1 == 0, z1 == 0,
                    y2 == -1, w2 == 0, x2 == 0, z2 == 0;
        } else if z2 == 1 {
            assert(composes_int(w1, x1, y1, z1, w2, x2, y2, z2, v0, v1, v2)) by (nonlinear_arith)
                requires w1 == 1, x1 == 0, y1 == 0, z1 == 0,
                    z2 == 1, w2 == 0, x2 == 0, y2 == 0;
        } else if z2 == -1 {
            assert(composes_int(w1, x1, y1, z1, w2, x2, y2, z2, v0, v1, v2)) by (nonlinear_arith)
                requires w1 == 1, x1 == 0, y1 == 0, z1 == 0,
                    z2 == -1, w2 == 0, x2 == 0, y2 == 0;
        }
    } else if w1 == -1 {
        assert(x1 == 0 && y1 == 0 && z1 == 0);
        if w2 == 1 {
            assert(composes_int(w1, x1, y1, z1, w2, x2, y2, z2, v0, v1, v2)) by (nonlinear_arith)
                requires w1 == -1, x1 == 0, y1 == 0, z1 == 0,
                    w2 == 1, x2 == 0, y2 == 0, z2 == 0;
        } else if w2 == -1 {
            assert(composes_int(w1, x1, y1, z1, w2, x2, y2, z2, v0, v1, v2)) by (nonlinear_arith)
                requires w1 == -1, x1 == 0, y1 == 0, z1 == 0,
                    w2 == -1, x2 == 0, y2 == 0, z2 == 0;
        } else if x2 == 1 {
            assert(composes_int(w1, x1, y1, z1, w2, x2, y2, z2, v0, v1, v2)) by (nonlinear_arith)
                requires w1 == -1, x1 == 0, y1 == 0, z1 == 0,
                    x2 == 1, w2 == 0, y2 == 0, z2 == 0;
        } else if x2 == -1 {
            assert(composes_int(w1, x1, y1, z1, w2, x2, y2, z2, v0, v1, v2)) by (nonlinear_arith)
                requires w1 == -1, x1 == 0, y1 == 0, z1 == 0,
                    x2 == -1, w2 == 0, y2 == 0, z2 == 0;
        } else if y2 == 1 {
            assert(composes_int(w1, x1, y1, z1, w2, x2, y2, z2, v0, v1, v2)) by (nonlinear_arith)
                requires w1 == -1, x1 == 0, y1 == 0, z1 == 0,
                    y2 == 1, w2 == 0, x2 == 0, z2 == 0;
        } else if y2 == -1 {
            assert(composes_int(w1, x1, y1, z1, w2, x2, y2, z2, v0, v1, v2)) by (nonlinear_arith)
                requires w1 == -1, x1 == 0, y1 == 0, z1 == 0,
                    y2 == -1, w2 == 0, x2 == 0, z2 == 0;
        } else if z2 == 1 {
            assert(composes_int(w1, x1, y1, z1, w2, x2, y2, z2, v0, v1, v2)) by (nonlinear_arith)
                requires w1 == -1, x1 == 0, y1 == 0, z1 == 0,
                    z2 == 1, w2 == 0, x2 == 0, y2 == 0;
        } else if z2 == -1 {
            assert(composes_int(w1, x1, y1, z1, w2, x2, y2, z2, v0, v1, v2)) by (nonlinear_arith)
                requires w1 == -1, x1 == 0, y1 == 0, z1 == 0,
                    z2 == -1, w2 == 0, x2 == 0, y2 == 0;
        }
    } else if x1 == 1 {
        assert(w1 == 0 && y1 == 0 && z1 == 0);
        if w2 == 1 {
            assert(composes_int(w1, x1, y1, z1, w2, x2, y2, z2, v0, v1, v2)) by (nonlinear_arith)
                requires x1 == 1, w1 == 0, y1 == 0, z1 == 0,
                    w2 == 1, x2 == 0, y2 == 0, z2 == 0;
        } else if w2 == -1 {
            assert(composes_int(w1, x1, y1, z1, w2, x2, y2, z2, v0, v1, v2)) by (nonlinear_arith)
                requires x1 == 1, w1 == 0, y1 == 0, z1 == 0,
                    w2 == -1, x2 == 0, y2 == 0, z2 == 0;
        } else if x2 == 1 {
            assert(composes_int(w1, x1, y1, z1, w2, x2, y2, z2, v0, v1, v2)) by (nonlinear_arith)
                requires x1 == 1, w1 == 0, y1 == 0, z1 == 0,
                    x2 == 1, w2 == 0, y2 == 0, z2 == 0;
        } else if x2 == -1 {
            assert(composes_int(w1, x1, y1, z1, w2, x2, y2, z2, v0, v1, v2)) by (nonlinear_arith)
                requires x1 == 1, w1 == 0, y1 == 0, z1 == 0,
                    x2 == -1, w2 == 0, y2 == 0, z2 == 0;
        } else if y2 == 1 {
            assert(composes_int(w1, x1, y1, z1, w2, x2, y2, z2, v0, v1, v2)) by (nonlinear_arith)
                requires x1 == 1, w1 == 0, y1 == 0, z1 == 0,
                    y2 == 1, w2 == 0, x2 == 0, z2 == 0;
        } else if y2 == -1 {
            assert(composes_int(w1, x1, y1, z1, w2, x2, y2, z2, v0, v1, v2)) by (nonlinear_arith)
                requires x1 == 1, w1 == 0, y1 == 0, z1 == 0,
                    y2 == -1, w2 == 0, x2 == 0, z2 == 0;
        } else if z2 == 1 {
            assert(composes_int(w1, x1, y1, z1, w2, x2, y2, z2, v0, v1, v2)) by (nonlinear_arith)
                requires x1 == 1, w1 == 0, y1 == 0, z1 == 0,
                    z2 == 1, w2 == 0, x2 == 0, y2 == 0;
        } else if z2 == -1 {
            assert(composes_int(w1, x1, y1, z1, w2, x2, y2, z2, v0, v1, v2)) by (nonlinear_arith)
                requires x1 == 1, w1 == 0, y1 == 0, z1 == 0,
                    z2 == -1, w2 == 0, x2 == 0, y2 == 0;
        }
    } else if x1 == -1 {
        assert(w1 == 0 && y1 == 0 && z1 == 0);
        if w2 == 1 {
            assert(composes_int(w1, x1, y1, z1, w2, x2, y2, z2, v0, v1, v2)) by (nonlinear_arith)
                requires x1 == -1, w1 == 0, y1 == 0, z1 == 0,
                    w2 == 1, x2 == 0, y2 == 0, z2 == 0;
        } else if w2 == -1 {
            assert(composes_int(w1, x1, y1, z1, w2, x2, y2, z2, v0, v1, v2)) by (nonlinear_arith)
                requires x1 == -1, w1 == 0, y1 == 0, z1 == 0,
                    w2 == -1, x2 == 0, y2 == 0, z2 == 0;
        } else if x2 == 1 {
            assert(composes_int(w1, x1, y1, z1, w2, x2, y2, z2, v0, v1, v2)) by (nonlinear_arith)
                requires x1 == -1, w1 == 0, y1 == 0, z1 == 0,
                    x2 == 1, w2 == 0, y2 == 0, z2 == 0;
        } else if x2 == -1 {
            assert(composes_int(w1, x1, y1, z1, w2, x2, y2, z2, v0, v1, v2)) by (nonlinear_arith)
                requires x1 == -1, w1 == 0, y1 == 0, z1 == 0,
                    x2 == -1, w2 == 0, y2 == 0, z2 == 0;
        } else if y2 == 1 {
            assert(composes_int(w1, x1, y1, z1, w2, x2, y2, z2, v0, v1, v2)) by (nonlinear_arith)
                requires x1 == -1, w1 == 0, y1 == 0, z1 == 0,
                    y2 == 1, w2 == 0, x2 == 0, z2 == 0;
        } else if y2 == -1 {
            assert(composes_int(w1, x1, y1, z1, w2, x2, y2, z2, v0, v1, v2)) by (nonlinear_arith)
                requires x1 == -1, w1 == 0, y1 == 0, z1 == 0,
                    y2 == -1, w2 == 0, x2 == 0, z2 == 0;
        } else if z2 == 1 {
            assert(composes_int(w1, x1, y1, z1, w2, x2, y2, z2, v0, v1, v2)) by (nonlinear_arith)
                requires x1 == -1, w1 == 0, y1 == 0, z1 == 0,
                    z2 == 1, w2 == 0, x2 == 0, y2 == 0;
        } else if z2 == -1 {
            assert(composes_int(w1, x1, y1, z1, w2, x2, y2, z2, v0, v1, v2)) by (nonlinear_arith)
                requires x1 == -1, w1 == 0, y1 == 0, z1 == 0,
                    z2 == -1, w2 == 0, x2 == 0, y2 == 0;
        }
    } else if y1 == 1 {
        assert(w1 == 0 && x1 == 0 && z1 == 0);
        if w2 == 1 {
            assert(composes_int(w1, x1, y1, z1, w2, x2, y2, z2, v0, v1, v2)) by (nonlinear_arith)
                requires y1 == 1, w1 == 0, x1 == 0, z1 == 0,
                    w2 == 1, x2 == 0, y2 == 0, z2 == 0;
        } else if w2 == -1 {
            assert(composes_int(w1, x1, y1, z1, w2, x2, y2, z2, v0, v1, v2)) by (nonlinear_arith)
                requires y1 == 1, w1 == 0, x1 == 0, z1 == 0,
                    w2 == -1, x2 == 0, y2 == 0, z2 == 0;
        } else if x2 == 1 {
            assert(composes_int(w1, x1, y1, z1, w2, x2, y2, z2, v0, v1, v2)) by (nonlinear_arith)
                requires y1 == 1, w1 == 0, x1 == 0, z1 == 0,
                    x2 == 1, w2 == 0, y2 == 0, z2 == 0;
        } else if x2 == -1 {
            assert(composes_int(w1, x1, y1, z1, w2, x2, y2, z2, v0, v1, v2)) by (nonlinear_arith)
                requires y1 == 1, w1 == 0, x1 == 0, z1 == 0,
                    x2 == -1, w2 == 0, y2 == 0, z2 == 0;
        } else if y2 == 1 {
            assert(composes_int(w1, x1, y1, z1, w2, x2, y2, z2, v0, v1, v2)) by (nonlinear_arith)
                requires y1 == 1, w1 == 0, x1 == 0, z1 == 0,
                    y2 == 1, w2 == 0, x2 == 0, z2 == 0;
        } else if y2 == -1 {
            assert(composes_int(w1, x1, y1, z1, w2, x2, y2, z2, v0, v1, v2)) by (nonlinear_arith)
                requires y1 == 1, w1 == 0, x1 == 0, z1 == 0,
                    y2 == -1, w2 == 0, x2 == 0, z2 == 0;
        } else if z2 == 1 {
            assert(composes_int(w1, x1, y1, z1, w2, x2, y2, z2, v0, v1, v2)) by (nonlinear_arith)
                requires y1 == 1, w1 == 0, x1 == 0, z1 == 0,
                    z2 == 1, w2 == 0, x2 == 0, y2 == 0;
        } else if z2 == -1 {
            assert(composes_int(w1, x1, y1, z1, w2, x2, y2, z2, v0, v1, v2)) by (nonlinear_arith)
                requires y1 == 1, w1 == 0, x1 == 0, z1 == 0,
                    z2 == -1, w2 == 0, x2 == 0, y2 == 0;
        }
    } else if y1 == -1 {
        assert(w1 == 0 && x1 == 0 && z1 == 0);
        if w2 == 1 {
            assert(composes_int(w1, x1, y1, z1, w2, x2, y2, z2, v0, v1, v2)) by (nonlinear_arith)
                requires y1 == -1, w1 == 0, x1 == 0, z1 == 0,
                    w2 == 1, x2 == 0, y2 == 0, z2 == 0;
        } else if w2 == -1 {
            assert(composes_int(w1, x1, y1, z1, w2, x2, y2, z2, v0, v1, v2)) by (nonlinear_arith)
                requires y1 == -1, w1 == 0, x1 == 0, z1 == 0,
                    w2 == -1, x2 == 0, y2 == 0, z2 == 0;
        } else if x2 == 1 {
            assert(composes_int(w1, x1, y1, z1, w2, x2, y2, z2, v0, v1, v2)) by (nonlinear_arith)
                requires y1 == -1, w1 == 0, x1 == 0, z1 == 0,
                    x2 == 1, w2 == 0, y2 == 0, z2 == 0;
        } else if x2 == -1 {
            assert(composes_int(w1, x1, y1, z1, w2, x2, y2, z2, v0, v1, v2)) by (nonlinear_arith)
                requires y1 == -1, w1 == 0, x1 == 0, z1 == 0,
                    x2 == -1, w2 == 0, y2 == 0, z2 == 0;
        } else if y2 == 1 {
            assert(composes_int(w1, x1, y1, z1, w2, x2, y2, z2, v0, v1, v2)) by (nonlinear_arith)
                requires y1 == -1, w1 == 0, x1 == 0, z1 == 0,
                    y2 == 1, w2 == 0, x2 == 0, z2 == 0;
        } else if y2 == -1 {
            assert(composes_int(w1, x1, y1, z1, w2, x2, y2, z2, v0, v1, v2)) by (nonlinear_arith)
                requires y1 == -1, w1 == 0, x1 == 0, z1 == 0,
                    y2 == -1, w2 == 0, x2 == 0, z2 == 0;
        } else if z2 == 1 {
            assert(composes_int(w1, x1, y1, z1, w2, x2, y2, z2, v0, v1, v2)) by (nonlinear_arith)
                requires y1 == -1, w1 == 0, x1 == 0, z1 == 0,
                    z2 == 1, w2 == 0, x2 == 0, y2 == 0;
        } else if z2 == -1 {
            assert(composes_int(w1, x1, y1, z1, w2, x2, y2, z2, v0, v1, v2)) by (nonlinear_arith)
                requires y1 == -1, w1 == 0, x1 == 0, z1 == 0,
                    z2 == -1, w2 == 0, x2 == 0, y2 == 0;
        }
    } else if z1 == 1 {
        assert(w1 == 0 && x1 == 0 && y1 == 0);
        if w2 == 1 {
            assert(composes_int(w1, x1, y1, z1, w2, x2, y2, z2, v0, v1, v2)) by (nonlinear_arith)
                requires z1 == 1, w1 == 0, x1 == 0, y1 == 0,
                    w2 == 1, x2 == 0, y2 == 0, z2 == 0;
        } else if w2 == -1 {
            assert(composes_int(w1, x1, y1, z1, w2, x2, y2, z2, v0, v1, v2)) by (nonlinear_arith)
                requires z1 == 1, w1 == 0, x1 == 0, y1 == 0,
                    w2 == -1, x2 == 0, y2 == 0, z2 == 0;
        } else if x2 == 1 {
            assert(composes_int(w1, x1, y1, z1, w2, x2, y2, z2, v0, v1, v2)) by (nonlinear_arith)
                requires z1 == 1, w1 == 0, x1 == 0, y1 == 0,
                    x2 == 1, w2 == 0, y2 == 0, z2 == 0;
        } else if x2 == -1 {
            assert(composes_int(w1, x1, y1, z1, w2, x2, y2, z2, v0, v1, v2)) by (nonlinear_arith)
                requires z1 == 1, w1 == 0, x1 == 0, y1 == 0,
                    x2 == -1, w2 == 0, y2 == 0, z2 == 0;
        } else if y2 == 1 {
            assert(composes_int(w1, x1, y1, z1, w2, x2, y2, z2, v0, v1, v2)) by (nonlinear_arith)
                requires z1 == 1, w1 == 0, x1 == 0, y1 == 0,
                    y2 == 1, w2 == 0, x2 == 0, z2 == 0;
        } else if y2 == -1 {
            assert(composes_int(w1, x1, y1, z1, w2, x2, y2, z2, v0, v1, v2)) by (nonlinear_arith)
                requires z1 == 1, w1 == 0, x1 == 0, y1 == 0,
                    y2 == -1, w2 == 0, x2 == 0, z2 == 0;
        } else if z2 == 1 {
            assert(composes_int(w1, x1, y1, z1, w2, x2, y2, z2, v0, v1, v2)) by (nonlinear_arith)
                requires z1 == 1, w1 == 0, x1 == 0, y1 == 0,
                    z2 == 1, w2 == 0, x2 == 0, y2 == 0;
        } else if z2 == -1 {
            assert(composes_int(w1, x1, y1, z1, w2, x2, y2, z2, v0, v1, v2)) by (nonlinear_arith)
                requires z1 == 1, w1 == 0, x1 == 0, y1 == 0,
                    z2 == -1, w2 == 0, x2 == 0, y2 == 0;
        }
    } else if z1 == -1 {
        assert(w1 == 0 && x1 == 0 && y1 == 0);
        if w2 == 1 {
            assert(composes_int(w1, x1, y1, z1, w2, x2, y2, z2, v0, v1, v2)) by (nonlinear_arith)
                requires z1 == -1, w1 == 0, x1 == 0, y1 == 0,
                    w2 == 1, x2 == 0, y2 == 0, z2 == 0;
        } else if w2 == -1 {
            assert(composes_int(w1, x1, y1, z1, w2, x2, y2, z2, v0, v1, v2)) by (nonlinear_arith)
                requires z1 == -1, w1 == 0, x1 == 0, y1 == 0,
                    w2 == -1, x2 == 0, y2 == 0, z2 == 0;
        } else if x2 == 1 {
            assert(composes_int(w1, x1, y1, z1, w2, x2, y2, z2, v0, v1, v2)) by (nonlinear_arith)
                requires z1 == -1, w1 == 0, x1 == 0, y1 == 0,
                    x2 == 1, w2 == 0, y2 == 0, z2 == 0;
        } else if x2 == -1 {
            assert(composes_int(w1, x1, y1, z1, w2, x2, y2, z2, v0, v1, v2)) by (nonlinear_arith)
                requires z1 == -1, w1 == 0, x1 == 0, y1 == 0,
                    x2 == -1, w2 == 0, y2 == 0, z2 == 0;
        } else if y2 == 1 {
            assert(composes_int(w1, x1, y1, z1, w2, x2, y2, z2, v0, v1, v2)) by (nonlinear_arith)
                requires z1 == -1, w1 == 0, x1 == 0, y1 == 0,
                    y2 == 1, w2 == 0, x2 == 0, z2 == 0;
        } else if y2 == -1 {
            assert(composes_int(w1, x1, y1, z1, w2, x2, y2, z2, v0, v1, v2)) by (nonlinear_arith)
                requires z1 == -1, w1 == 0, x1 == 0, y1 == 0,
                    y2 == -1, w2 == 0, x2 == 0, z2 == 0;
        } else if z2 == 1 {
            assert(composes_int(w1, x1, y1, z1, w2, x2, y2, z2, v0, v1, v2)) by (nonlinear_arith)
                requires z1 == -1, w1 == 0, x1 == 0, y1 == 0,
                    z2 == 1, w2 == 0, x2 == 0, y2 == 0;
        } else if z2 == -1 {
            assert(composes_int(w1, x1, y1, z1, w2, x2, y2, z2, v0, v1, v2)) by (nonlinear_arith)
                requires z1 == -1, w1 == 0, x1 == 0, y1 == 0,
                    z2 == -1, w2 == 0, x2 == 0, y2 == 0;
        }
    }
}

/// Composition law: rotating a vector by the product `q1 * q2` equals rotating it by `q1`
/// and then by `q2` (Q_A→B * Q_B→C = Q_A→C), for integer unit quaternions (with the
/// coordinate value 2) where every step of both computations is defined.
pub proof fn lemma_product_rotates_in_sequence<A: Frame, B: Frame, C: Frame, U: Unit>(
    q1: Quaternion<A, B, i64>,
    q2: Quaternion<B, C, i64>,
    v: Vector3<A, U, i64>,
)
    requires
        q1.w * q1.w + q1.x * q1.x + q1.y * q1.y + q1.z * q1.z == 1,
        q2.w * q2.w + q2.x * q2.x + q2.y * q2.y + q2.z * q2.z == 1,
        hamilton_product_defined(q1, q2),
        quaternion_rotated_defined(hamilton_product(q1, q2), v, 2i64),
        quaternion_rotated_defined(q1, v, 2i64),
        quaternion_rotated_defined(q2, quaternion_rotated(q1, v, 2i64), 2i64),
    ensures
        quaternion_rotated(hamilton_product(q1, q2), v, 2i64) == quaternion_rotated(
            q2,
            quaternion_rotated(q1, v, 2i64),
            2i64,
        ),
{
    let h = hamilton_product(q1, q2);
    let first = quaternion_rotated(q1, v, 2i64);
    lemma_rotated_by_quaternion_exact(h, v);
    lemma_rotated_by_quaternion_exact(q1, v);
    lemma_rotated_by_quaternion_exact(q2, first);
    lemma_hamilton_product_exact(q1, q2);
    lemma_unit_composition_int(
        q1.w as int, q1.x as int, q1.y as int, q1.z as int,
        q2.w as int, q2.x as int, q2.y as int, q2.z as int,
        v.x as int, v.y as int, v.z as int,
    );
}

/// Conjugating twice gives back the original quaternion, for integer components whose
/// negation does not overflow.
pub proof fn lemma_conjugate_involution<From: Frame, To: Frame>(q: Quaternion<From, To, i64>)
    requires
        q.x != i64::MIN,
        q.y != i64::MIN,
        q.z != i64::MIN,
    ensures
        conjugated(conjugated(q)) == q,
{
}

} // verus!
