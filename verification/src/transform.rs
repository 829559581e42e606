//! Rigid-body transforms (rotation plus translation) between two reference frames.

use core::marker::PhantomData;
use core::ops::{Add, Mul, Neg};
use vstd::prelude::*;
use vstd::std_specs::ops::{AddSpec, MulSpec, NegSpec};

use crate::dcm::{
    lemma_rotated_exact, lemma_sum_of_products_regroups, matrix_product, orthonormal_columns,
    product_defined, rotated, rotated_defined, transposed, DirectionCosineMatrix,
};
use crate::frames::Frame;
use crate::linalg::lemma_dot3_exact;
use crate::point::{
    displacement, is_default_point, point_of, translated, translated_defined, Point3,
};
use crate::units::Unit;
use crate::vector::{is_default_vector, vector_negation, vector_of, vector_sum, Vector3};

verus! {

/// A rigid transform taking points and vectors from frame `From` to frame `To`:
/// `dcm` rotates `From` into `To`, and `translation` is the origin of `From` expressed in `To`.
#[derive(Debug, PartialEq)]
pub struct Transform3D<From: Frame, To: Frame, U: Unit, T> {
    /// Rotation from `From` to `To`.
    pub dcm: DirectionCosineMatrix<From, To, T>,
    /// Origin of `From` expressed in `To`.
    pub translation: Vector3<To, U, T>,
    /// The source-frame tag (zero-sized).
    pub from: PhantomData<From>,
    /// The target-frame tag (zero-sized).
    pub to: PhantomData<To>,
}

/// The displacement of point `p` from the origin.
pub open spec fn position_vector<F: Frame, U: Unit, T>(p: Point3<F, U, T>) -> Vector3<F, U, T> {
    vector_of(p.x, p.y, p.z)
}

/// `o + t + m p`: the point `p` rotated by `m`, placed at translation `t` from the point `o`
/// (the origin of the target frame).
pub open spec fn placed<F: Frame, G: Frame, U: Unit, T: Add<Output = T> + Mul<Output = T>>(
    o: Point3<G, U, T>,
    m: [[T; 3]; 3],
    t: Vector3<G, U, T>,
    p: Point3<F, U, T>,
) -> Point3<G, U, T> {
    translated(translated(o, t), rotated::<F, G, U, T>(m, position_vector(p)))
}

/// Whether the two translations of [`placed`] are defined.
pub open spec fn placed_defined<F: Frame, G: Frame, U: Unit, T: Add<Output = T> + Mul<
    Output = T,
>>(o: Point3<G, U, T>, m: [[T; 3]; 3], t: Vector3<G, U, T>, p: Point3<F, U, T>) -> bool {
    &&& translated_defined(o, t)
    &&& translated_defined(translated(o, t), rotated::<F, G, U, T>(m, position_vector(p)))
}

impl<From: Frame, To: Frame, U: Unit, T: Copy> Clone for Transform3D<From, To, U, T> {
    fn clone(&self) -> (r: Self)
        ensures
            r == *self,
    {
        *self
    }
}

impl<From: Frame, To: Frame, U: Unit, T: Copy> Copy for Transform3D<From, To, U, T> {}

impl<From: Frame, To: Frame, U: Unit, T> Transform3D<From, To, U, T> {
    /// Creates a transform from its rotation and translation.
    pub fn new(dcm: DirectionCosineMatrix<From, To, T>, translation: Vector3<To, U, T>) -> (r:
        Self)
        ensures
            r.dcm == dcm,
            r.translation == translation,
    {
        Transform3D { dcm, translation, from: PhantomData, to: PhantomData }
    }

    /// A pure rotation: the given rotation with a zero translation.
    pub fn pure_rotation(dcm: DirectionCosineMatrix<From, To, T>) -> (r: Self)
        where T: Default,
        ensures
            r.dcm == dcm,
            is_default_vector(r.translation),
    {
        Self::new(dcm, Vector3::zero())
    }
}

impl<From: Frame, To: Frame, U: Unit, T: Copy + Add<Output = T> + Mul<Output = T>> Transform3D<
    From,
    To,
    U,
    T,
> {
    /// Transforms a point of `From` into `To`: the origin, plus the translation, plus the
    /// rotated point.
    pub fn transform_point(&self, p: Point3<From, U, T>) -> (r: Point3<To, U, T>)
        where T: Default,
        requires
            T::obeys_add_spec(),
            T::obeys_mul_spec(),
            rotated_defined(self.dcm.m, position_vector(p)),
            forall|o: Point3<To, U, T>|
                #[trigger] is_default_point(o) ==> placed_defined(o, self.dcm.m, self.translation, p),
        ensures
            exists|o: Point3<To, U, T>|
                #[trigger] is_default_point(o) && r == placed(o, self.dcm.m, self.translation, p),
    {
        let rotated_vec = self.dcm.rotate_vector(p.to_vector());
        let o = Point3::origin();
        assert(placed_defined(o, self.dcm.m, self.translation, p));
        let r = o + self.translation + rotated_vec;
        assert(r == placed(o, self.dcm.m, self.translation, p));
        r
    }

    /// Transforms a direction or velocity vector of `From` into `To` (rotation only).
    pub fn transform_vector(&self, v: Vector3<From, U, T>) -> (r: Vector3<To, U, T>)
        requires
            T::obeys_add_spec(),
            T::obeys_mul_spec(),
            rotated_defined(self.dcm.m, v),
        ensures
            r == rotated::<From, To, U, T>(self.dcm.m, v),
    {
        self.dcm.rotate_vector(v)
    }

    /// Chains two transforms: `self` (`From` to `To`) followed by `next` (`To` to `Target`).
    /// The rotation is `next.dcm * self.dcm` and the translation is
    /// `next.translation + next.dcm * self.translation`.
    pub fn chain<Target: Frame>(&self, next: &Transform3D<To, Target, U, T>) -> (r: Transform3D<
        From,
        Target,
        U,
        T,
    >)
        requires
            T::obeys_add_spec(),
            T::obeys_mul_spec(),
            product_defined(next.dcm.m, self.dcm.m),
            rotated_defined(next.dcm.m, self.translation),
            next.translation.x.add_req(rotated::<To, Target, U, T>(next.dcm.m, self.translation).x),
            next.translation.y.add_req(rotated::<To, Target, U, T>(next.dcm.m, self.translation).y),
            next.translation.z.add_req(rotated::<To, Target, U, T>(next.dcm.m, self.translation).z),
        ensures
            r.dcm.m == matrix_product(next.dcm.m, self.dcm.m),
            r.translation == vector_sum(
                next.translation,
                rotated::<To, Target, U, T>(next.dcm.m, self.translation),
            ),
    {
        let combined_dcm = self.dcm.chain(&next.dcm);
        let combined_translation = next.translation + next.dcm.rotate_vector(self.translation);
        Transform3D::new(combined_dcm, combined_translation)
    }
}

impl<From: Frame, To: Frame, U: Unit, T: Copy + Add<Output = T> + Mul<Output = T> + Neg<
    Output = T,
>> Transform3D<From, To, U, T> {
    /// The inverse transform (`To` to `From`): the transposed rotation, and the opposite of
    /// the translation rotated back.
    pub fn inverse(&self) -> (r: Transform3D<To, From, U, T>)
        requires
            T::obeys_add_spec(),
            T::obeys_mul_spec(),
            T::obeys_neg_spec(),
            rotated_defined(transposed(self.dcm.m), self.translation),
            rotated::<To, From, U, T>(transposed(self.dcm.m), self.translation).x.neg_req(),
            rotated::<To, From, U, T>(transposed(self.dcm.m), self.translation).y.neg_req(),
            rotated::<To, From, U, T>(transposed(self.dcm.m), self.translation).z.neg_req(),
        ensures
            r.dcm.m == transposed(self.dcm.m),
            r.translation == vector_negation(
                rotated::<To, From, U, T>(transposed(self.dcm.m), self.translation),
            ),
    {
        let inv_dcm = self.dcm.transpose();
        let inv_translation = inv_dcm.rotate_vector(self.translation).neg();
        Transform3D::new(inv_dcm, inv_translation)
    }
}


/// The origin of a frame with integer coordinates (what `Point3::origin` gives for `i64`).
pub open spec fn integer_origin<F: Frame, U: Unit>() -> Point3<F, U, i64> {
    point_of(0i64, 0i64, 0i64)
}

/// Chaining law: transforming a point with `a.chain(n)` equals transforming it with `a` and
/// then with `n`, for integer coordinates where every step of both computations is defined.
pub proof fn lemma_chain_transforms_in_sequence<A: Frame, B: Frame, C: Frame, U: Unit>(
    a: Transform3D<A, B, U, i64>,
    n: Transform3D<B, C, U, i64>,
    p: Point3<A, U, i64>,
)
    requires
        product_defined(n.dcm.m, a.dcm.m),
        rotated_defined(n.dcm.m, a.translation),
        translated_defined(
            point_of::<C, U, i64>(n.translation.x, n.translation.y, n.translation.z),
            rotated::<B, C, U, i64>(n.dcm.m, a.translation),
        ),
        rotated_defined(matrix_product(n.dcm.m, a.dcm.m), position_vector(p)),
        placed_defined(
            integer_origin::<C, U>(),
            matrix_product(n.dcm.m, a.dcm.m),
            vector_sum(n.translation, rotated::<B, C, U, i64>(n.dcm.m, a.translation)),
            p,
        ),
        rotated_defined(a.dcm.m, position_vector(p)),
        placed_defined(integer_origin::<B, U>(), a.dcm.m, a.translation, p),
        rotated_defined(
            n.dcm.m,
            position_vector(placed(integer_origin::<B, U>(), a.dcm.m, a.translation, p)),
        ),
        placed_defined(
            integer_origin::<C, U>(),
            n.dcm.m,
            n.translation,
            placed(integer_origin::<B, U>(), a.dcm.m, a.translation, p),
        ),
    ensures
        placed(
            integer_origin::<C, U>(),
            matrix_product(n.dcm.m, a.dcm.m),
            vector_sum(n.translation, rotated::<B, C, U, i64>(n.dcm.m, a.translation)),
            p,
        ) == placed(
            integer_origin::<C, U>(),
            n.dcm.m,
            n.translation,
            placed(integer_origin::<B, U>(), a.dcm.m, a.translation, p),
        ),
{
    let (nm, am) = (n.dcm.m, a.dcm.m);
    let pm = matrix_product(nm, am);
    let q = placed(integer_origin::<B, U>(), am, a.translation, p);
    assert forall|i: int, j: int| 0 <= i < 3 && 0 <= j < 3 implies pm[i][j] as int == nm[i][0]
        * am[0][j] + nm[i][1] * am[1][j] + nm[i][2] * am[2][j] by {
        assert(crate::linalg::dot3_defined(
            nm[i][0],
            nm[i][1],
            nm[i][2],
            am[0][j],
            am[1][j],
            am[2][j],
        ));
        lemma_dot3_exact(nm[i][0], nm[i][1], nm[i][2], am[0][j], am[1][j], am[2][j]);
    }
    lemma_rotated_exact::<B, C, U>(nm, a.translation);
    lemma_rotated_exact::<A, C, U>(pm, position_vector(p));
    lemma_rotated_exact::<A, B, U>(am, position_vector(p));
    lemma_rotated_exact::<B, C, U>(nm, position_vector(q));
    let (at, pp) = (a.translation, p);
    assert forall|i: int| 0 <= i < 3 implies nm[i][0] * q.x + nm[i][1] * q.y + nm[i][2] * q.z
        == (nm[i][0] * at.x + nm[i][1] * at.y + nm[i][2] * at.z) + (pm[i][0] * pp.x + pm[i][1]
        * pp.y + pm[i][2] * pp.z) by {
        lemma_sum_of_products_regroups(
            nm[i][0] as int, nm[i][1] as int, nm[i][2] as int,
            am[0][0] as int, am[0][1] as int, am[0][2] as int,
            am[1][0] as int, am[1][1] as int, am[1][2] as int,
            am[2][0] as int, am[2][1] as int, am[2][2] as int,
            pp.x as int, pp.y as int, pp.z as int,
        );
        lemma_distribute_pair(nm[i][0] as int, at.x as int, (am[0][0] * pp.x + am[0][1] * pp.y + am[0][2] * pp.z) as int);
        lemma_distribute_pair(nm[i][1] as int, at.y as int, (am[1][0] * pp.x + am[1][1] * pp.y + am[1][2] * pp.z) as int);
        lemma_distribute_pair(nm[i][2] as int, at.z as int, (am[2][0] * pp.x + am[2][1] * pp.y + am[2][2] * pp.z) as int);
    }
}

/// Inverse law: for an orthonormal rotation, transforming a point and then applying the
/// inverse transform gives back the point, for integer coordinates where every step is
/// defined.
pub proof fn lemma_inverse_undoes_transform<A: Frame, B: Frame, U: Unit>(
    tf: Transform3D<A, B, U, i64>,
    p: Point3<A, U, i64>,
)
    requires
        orthonormal_columns(tf.dcm.m),
        rotated_defined(tf.dcm.m, position_vector(p)),
        placed_defined(integer_origin::<B, U>(), tf.dcm.m, tf.translation, p),
        rotated_defined(transposed(tf.dcm.m), tf.translation),
        rotated::<B, A, U, i64>(transposed(tf.dcm.m), tf.translation).x != i64::MIN,
        rotated::<B, A, U, i64>(transposed(tf.dcm.m), tf.translation).y != i64::MIN,
        rotated::<B, A, U, i64>(transposed(tf.dcm.m), tf.translation).z != i64::MIN,
        rotated_defined(
            transposed(tf.dcm.m),
            position_vector(placed(integer_origin::<B, U>(), tf.dcm.m, tf.translation, p)),
        ),
        placed_defined(
            integer_origin::<A, U>(),
            transposed(tf.dcm.m),
            vector_negation(rotated::<B, A, U, i64>(transposed(tf.dcm.m), tf.translation)),
            placed(integer_origin::<B, U>(), tf.dcm.m, tf.translation, p),
        ),
    ensures
        placed(
            integer_origin::<A, U>(),
            transposed(tf.dcm.m),
            vector_negation(rotated::<B, A, U, i64>(transposed(tf.dcm.m), tf.translation)),
            placed(integer_origin::<B, U>(), tf.dcm.m, tf.translation, p),
        ) == p,
{
    let m = tf.dcm.m;
    let mt = transposed(m);
    let t = tf.translation;
    let q = placed(integer_origin::<B, U>(), m, t, p);
    lemma_rotated_exact::<A, B, U>(m, position_vector(p));
    lemma_rotated_exact::<B, A, U>(mt, t);
    lemma_rotated_exact::<B, A, U>(mt, position_vector(q));
    assert forall|i: int| 0 <= i < 3 implies m[0][i] * q.x + m[1][i] * q.y + m[2][i] * q.z == (
    m[0][i] * t.x + m[1][i] * t.y + m[2][i] * t.z) + (if i == 0 {
        p.x as int
    } else if i == 1 {
        p.y as int
    } else {
        p.z as int
    }) by {
        assert(orthonormal_columns(m));
        assert((m[0][i] * m[0][0]) + m[1][i] * m[1][0] + m[2][i] * m[2][0] == if i == 0 { 1int } else { 0int });
        assert((m[0][i] * m[0][1]) + m[1][i] * m[1][1] + m[2][i] * m[2][1] == if i == 1 { 1int } else { 0int });
        assert((m[0][i] * m[0][2]) + m[1][i] * m[1][2] + m[2][i] * m[2][2] == if i == 2 { 1int } else { 0int });
        lemma_sum_of_products_regroups(
            m[0][i] as int, m[1][i] as int, m[2][i] as int,
            m[0][0] as int, m[0][1] as int, m[0][2] as int,
            m[1][0] as int, m[1][1] as int, m[1][2] as int,
            m[2][0] as int, m[2][1] as int, m[2][2] as int,
            p.x as int, p.y as int, p.z as int,
        );
        lemma_distribute_pair(m[0][i] as int, t.x as int, (m[0][0] * p.x + m[0][1] * p.y + m[0][2] * p.z) as int);
        lemma_distribute_pair(m[1][i] as int, t.y as int, (m[1][0] * p.x + m[1][1] * p.y + m[1][2] * p.z) as int);
        lemma_distribute_pair(m[2][i] as int, t.z as int, (m[2][0] * p.x + m[2][1] * p.y + m[2][2] * p.z) as int);
    }
    assert(mt[0][0] == m[0][0] && mt[0][1] == m[1][0] && mt[0][2] == m[2][0]);
    assert(mt[1][0] == m[0][1] && mt[1][1] == m[1][1] && mt[1][2] == m[2][1]);
    assert(mt[2][0] == m[0][2] && mt[2][1] == m[1][2] && mt[2][2] == m[2][2]);
}

/// Rigid-motion law: the displacement between two transformed points is the rotated
/// displacement between the points (`T p - T q = m (p - q)`), for integer coordinates where
/// every step is defined.
pub proof fn lemma_transform_maps_displacements<A: Frame, B: Frame, U: Unit>(
    tf: Transform3D<A, B, U, i64>,
    p: Point3<A, U, i64>,
    q: Point3<A, U, i64>,
)
    requires
        rotated_defined(tf.dcm.m, position_vector(p)),
        rotated_defined(tf.dcm.m, position_vector(q)),
        placed_defined(integer_origin::<B, U>(), tf.dcm.m, tf.translation, p),
        placed_defined(integer_origin::<B, U>(), tf.dcm.m, tf.translation, q),
        i64::MIN <= p.x - q.x <= i64::MAX,
        i64::MIN <= p.y - q.y <= i64::MAX,
        i64::MIN <= p.z - q.z <= i64::MAX,
        rotated_defined(tf.dcm.m, displacement(p, q)),
    ensures
        displacement(
            placed(integer_origin::<B, U>(), tf.dcm.m, tf.translation, p),
            placed(integer_origin::<B, U>(), tf.dcm.m, tf.translation, q),
        ) == rotated::<A, B, U, i64>(tf.dcm.m, displacement(p, q)),
{
    let m = tf.dcm.m;
    let d = displacement(p, q);
    lemma_rotated_exact::<A, B, U>(m, position_vector(p));
    lemma_rotated_exact::<A, B, U>(m, position_vector(q));
    lemma_rotated_exact::<A, B, U>(m, d);
    assert forall|i: int| 0 <= i < 3 implies m[i][0] * d.x + m[i][1] * d.y + m[i][2] * d.z == (
    m[i][0] * p.x + m[i][1] * p.y + m[i][2] * p.z) - (m[i][0] * q.x + m[i][1] * q.y + m[i][2]
        * q.z) by {
        lemma_distribute_difference(m[i][0] as int, p.x as int, q.x as int);
        lemma_distribute_difference(m[i][1] as int, p.y as int, q.y as int);
        lemma_distribute_difference(m[i][2] as int, p.z as int, q.z as int);
    }
}

/// `c (x - y) = c x - c y`.
proof fn lemma_distribute_difference(c: int, x: int, y: int)
    by (nonlinear_arith)
    ensures
        c * (x - y) == c * x - c * y,
{
}

/// `c (x + y) = c x + c y`.
proof fn lemma_distribute_pair(c: int, x: int, y: int)
    by (nonlinear_arith)
    ensures
        c * (x + y) == c * x + c * y,
{
}

} // verus!
