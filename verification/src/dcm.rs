//! Direction cosine matrices: 3x3 rotation matrices between two reference frames.

use core::marker::PhantomData;
use core::ops::{Add, Mul};
use vstd::prelude::*;
use vstd::std_specs::ops::{AddSpec, MulSpec, MulSpecImpl};

use crate::frames::Frame;
use crate::linalg::{dot3, dot3_defined, exec_dot3, lemma_dot3_exact};
use crate::units::Unit;
use crate::vector::{vector_of, Vector3};

verus! {

/// A 3x3 direction cosine matrix rotating vectors from frame `From` to frame `To`
/// (`v_To = M * v_From`, row-major).
#[derive(Debug, PartialEq)]
pub struct DirectionCosineMatrix<From: Frame, To: Frame, T> {
    /// The matrix entries, `m[row][column]`.
    pub m: [[T; 3]; 3],
    /// The source-frame tag (zero-sized).
    pub from: PhantomData<From>,
    /// The target-frame tag (zero-sized).
    pub to: PhantomData<To>,
}

/// The matrix with rows `r0`, `r1`, `r2`.
pub open spec fn rows_of<T>(r0: [T; 3], r1: [T; 3], r2: [T; 3]) -> [[T; 3]; 3] {
    [r0, r1, r2]
}

/// The transpose of `m`: entry `(i, j)` of the result is entry `(j, i)` of `m`.
pub open spec fn transposed<T>(m: [[T; 3]; 3]) -> [[T; 3]; 3] {
    [
        [m[0][0], m[1][0], m[2][0]],
        [m[0][1], m[1][1], m[2][1]],
        [m[0][2], m[1][2], m[2][2]],
    ]
}

/// `m * v`: the vector `v` rotated by the matrix `m` (each component is a row of `m` dotted
/// with `v`).
pub open spec fn rotated<F: Frame, G: Frame, U: Unit, T: Add<Output = T> + Mul<Output = T>>(
    m: [[T; 3]; 3],
    v: Vector3<F, U, T>,
) -> Vector3<G, U, T> {
    vector_of(
        dot3(m[0][0], m[0][1], m[0][2], v.x, v.y, v.z),
        dot3(m[1][0], m[1][1], m[1][2], v.x, v.y, v.z),
        dot3(m[2][0], m[2][1], m[2][2], v.x, v.y, v.z),
    )
}

/// Whether `m * v` is defined.
pub open spec fn rotated_defined<F: Frame, U: Unit, T: Add<Output = T> + Mul<Output = T>>(
    m: [[T; 3]; 3],
    v: Vector3<F, U, T>,
) -> bool {
    &&& dot3_defined(m[0][0], m[0][1], m[0][2], v.x, v.y, v.z)
    &&& dot3_defined(m[1][0], m[1][1], m[1][2], v.x, v.y, v.z)
    &&& dot3_defined(m[2][0], m[2][1], m[2][2], v.x, v.y, v.z)
}

/// Entry `(i, j)` of the matrix product `a * b`: row `i` of `a` dotted with column `j` of `b`.
pub open spec fn product_entry<T: Add<Output = T> + Mul<Output = T>>(
    a: [[T; 3]; 3],
    b: [[T; 3]; 3],
    i: int,
    j: int,
) -> T {
    dot3(a[i][0], a[i][1], a[i][2], b[0][j], b[1][j], b[2][j])
}

/// The matrix product `a * b`.
pub open spec fn matrix_product<T: Add<Output = T> + Mul<Output = T>>(
    a: [[T; 3]; 3],
    b: [[T; 3]; 3],
) -> [[T; 3]; 3] {
    [
        [product_entry(a, b, 0, 0), product_entry(a, b, 0, 1), product_entry(a, b, 0, 2)],
        [product_entry(a, b, 1, 0), product_entry(a, b, 1, 1), product_entry(a, b, 1, 2)],
        [product_entry(a, b, 2, 0), product_entry(a, b, 2, 1), product_entry(a, b, 2, 2)],
    ]
}

/// Whether every entry of `a * b` is defined.
pub open spec fn product_defined<T: Add<Output = T> + Mul<Output = T>>(
    a: [[T; 3]; 3],
    b: [[T; 3]; 3],
) -> bool {
    forall|i: int, j: int|
        0 <= i < 3 && 0 <= j < 3 ==> #[trigger] dot3_defined(
            a[i][0],
            a[i][1],
            a[i][2],
            b[0][j],
            b[1][j],
            b[2][j],
        )
}

/// Whether `m` has `one` on its diagonal and `zero` everywhere else.
pub open spec fn is_diagonal_of<T>(m: [[T; 3]; 3], one: T, zero: T) -> bool {
    forall|i: int, j: int|
        0 <= i < 3 && 0 <= j < 3 ==> #[trigger] m[i][j] == if i == j {
            one
        } else {
            zero
        }
}

impl<From: Frame, To: Frame, T: Copy> Clone for DirectionCosineMatrix<From, To, T> {
    fn clone(&self) -> (r: Self)
        ensures
            r == *self,
    {
        *self
    }
}

impl<From: Frame, To: Frame, T: Copy> Copy for DirectionCosineMatrix<From, To, T> {}

impl<From: Frame, To: Frame, T> DirectionCosineMatrix<From, To, T> {
    /// Creates a matrix from its rows `[[r0c0, r0c1, r0c2], [r1c0, ...], ...]`.
    pub fn new(m: [[T; 3]; 3]) -> (r: Self)
        ensures
            r.m == m,
    {
        DirectionCosineMatrix { m, from: PhantomData, to: PhantomData }
    }

    /// Creates a matrix from its three rows.
    pub fn from_rows(r0: [T; 3], r1: [T; 3], r2: [T; 3]) -> (r: Self)
        ensures
            r.m == rows_of(r0, r1, r2),
    {
        Self::new([r0, r1, r2])
    }

    /// The transposed matrix, rotating from `To` back to `From` (for an orthonormal matrix
    /// the transpose is the inverse).
    pub fn transpose(self) -> (r: DirectionCosineMatrix<To, From, T>)
        where T: Copy,
        ensures
            r.m == transposed(self.m),
    {
        DirectionCosineMatrix::new(
            [
                [self.m[0][0], self.m[1][0], self.m[2][0]],
                [self.m[0][1], self.m[1][1], self.m[2][1]],
                [self.m[0][2], self.m[1][2], self.m[2][2]],
            ],
        )
    }
}

impl<From: Frame, To: Frame, T: Copy + Add<Output = T> + Mul<Output = T>> DirectionCosineMatrix<
    From,
    To,
    T,
> {
    /// Rotates a vector of `From` into `To`: `M * v`.
    pub fn rotate_vector<U: Unit>(&self, v: Vector3<From, U, T>) -> (r: Vector3<To, U, T>)
        requires
            T::obeys_add_spec(),
            T::obeys_mul_spec(),
            rotated_defined(self.m, v),
        ensures
            r == rotated::<From, To, U, T>(self.m, v),
    {
        let m = &self.m;
        Vector3::new(
            exec_dot3(m[0][0], m[0][1], m[0][2], v.x, v.y, v.z),
            exec_dot3(m[1][0], m[1][1], m[1][2], v.x, v.y, v.z),
            exec_dot3(m[2][0], m[2][1], m[2][2], v.x, v.y, v.z),
        )
    }

    /// Chains two rotations: `self` (`From` to `To`) followed by `next` (`To` to `Target`),
    /// giving the rotation from `From` to `Target`, `next * self`.
    pub fn chain<Target: Frame>(&self, next: &DirectionCosineMatrix<To, Target, T>) -> (r:
        DirectionCosineMatrix<From, Target, T>)
        requires
            T::obeys_add_spec(),
            T::obeys_mul_spec(),
            product_defined(next.m, self.m),
        ensures
            r.m == matrix_product(next.m, self.m),
    {
        let a = &self.m;
        let n = &next.m;
        assert(dot3_defined(n[0][0], n[0][1], n[0][2], a[0][0], a[1][0], a[2][0]));
        assert(dot3_defined(n[0][0], n[0][1], n[0][2], a[0][1], a[1][1], a[2][1]));
        assert(dot3_defined(n[0][0], n[0][1], n[0][2], a[0][2], a[1][2], a[2][2]));
        assert(dot3_defined(n[1][0], n[1][1], n[1][2], a[0][0], a[1][0], a[2][0]));
        assert(dot3_defined(n[1][0], n[1][1], n[1][2], a[0][1], a[1][1], a[2][1]));
        assert(dot3_defined(n[1][0], n[1][1], n[1][2], a[0][2], a[1][2], a[2][2]));
        assert(dot3_defined(n[2][0], n[2][1], n[2][2], a[0][0], a[1][0], a[2][0]));
        assert(dot3_defined(n[2][0], n[2][1], n[2][2], a[0][1], a[1][1], a[2][1]));
        assert(dot3_defined(n[2][0], n[2][1], n[2][2], a[0][2], a[1][2], a[2][2]));
        let m = [
            [
                exec_dot3(n[0][0], n[0][1], n[0][2], a[0][0], a[1][0], a[2][0]),
                exec_dot3(n[0][0], n[0][1], n[0][2], a[0][1], a[1][1], a[2][1]),
                exec_dot3(n[0][0], n[0][1], n[0][2], a[0][2], a[1][2], a[2][2]),
            ],
            [
                exec_dot3(n[1][0], n[1][1], n[1][2], a[0][0], a[1][0], a[2][0]),
                exec_dot3(n[1][0], n[1][1], n[1][2], a[0][1], a[1][1], a[2][1]),
                exec_dot3(n[1][0], n[1][1], n[1][2], a[0][2], a[1][2], a[2][2]),
            ],
            [
                exec_dot3(n[2][0], n[2][1], n[2][2], a[0][0], a[1][0], a[2][0]),
                exec_dot3(n[2][0], n[2][1], n[2][2], a[0][1], a[1][1], a[2][1]),
                exec_dot3(n[2][0], n[2][1], n[2][2], a[0][2], a[1][2], a[2][2]),
            ],
        ];
        let r = DirectionCosineMatrix::new(m);
        assert(r.m[0] =~= matrix_product(next.m, self.m)[0]);
        assert(r.m[1] =~= matrix_product(next.m, self.m)[1]);
        assert(r.m[2] =~= matrix_product(next.m, self.m)[2]);
        assert(r.m =~= matrix_product(next.m, self.m));
        r
    }
}

impl<A: Frame, B: Frame, C: Frame, T: Copy + Add<Output = T> + Mul<Output = T>> MulSpecImpl<
    DirectionCosineMatrix<B, C, T>,
> for DirectionCosineMatrix<A, B, T> {
    open spec fn obeys_mul_spec() -> bool {
        T::obeys_add_spec() && T::obeys_mul_spec()
    }

    open spec fn mul_req(self, rhs: DirectionCosineMatrix<B, C, T>) -> bool {
        T::obeys_add_spec() && T::obeys_mul_spec() && product_defined(rhs.m, self.m)
    }

    open spec fn mul_spec(self, rhs: DirectionCosineMatrix<B, C, T>) -> DirectionCosineMatrix<
        A,
        C,
        T,
    > {
        DirectionCosineMatrix { m: matrix_product(rhs.m, self.m), from: PhantomData, to: PhantomData }
    }
}

impl<A: Frame, B: Frame, C: Frame, T: Copy + Add<Output = T> + Mul<Output = T>> core::ops::Mul<
    DirectionCosineMatrix<B, C, T>,
> for DirectionCosineMatrix<A, B, T> {
    type Output = DirectionCosineMatrix<A, C, T>;

    /// `R_A→B * R_B→C = R_A→C`: the same as [`DirectionCosineMatrix::chain`].
    fn mul(self, rhs: DirectionCosineMatrix<B, C, T>) -> (r: DirectionCosineMatrix<A, C, T>)
        ensures
            r.m == matrix_product(rhs.m, self.m),
    {
        self.chain(&rhs)
    }
}

impl<F: Frame, U: Unit, T: Copy + Add<Output = T> + Mul<Output = T>> Vector3<F, U, T> {
    /// Rotates this vector into `TargetFrame` with the matrix `dcm`.
    pub fn rotate_to<TargetFrame: Frame>(self, dcm: &DirectionCosineMatrix<F, TargetFrame, T>) -> (r:
        Vector3<TargetFrame, U, T>)
        requires
            T::obeys_add_spec(),
            T::obeys_mul_spec(),
            rotated_defined(dcm.m, self),
        ensures
            r == rotated::<F, TargetFrame, U, T>(dcm.m, self),
    {
        dcm.rotate_vector(self)
    }
}

impl<F: Frame, T: Copy + Default + core::convert::From<u8>> DirectionCosineMatrix<F, F, T> {
    /// The identity rotation of a frame onto itself: `T::from(1)` on the diagonal and
    /// `T::default()` elsewhere.
    pub fn identity() -> (r: Self)
        ensures
            call_ensures(<T as core::convert::From<u8>>::from, (1u8,), r.m[0][0]),
            call_ensures(T::default, (), r.m[0][1]),
            is_diagonal_of(r.m, r.m[0][0], r.m[0][1]),
    {
        let one = T::from(1);
        let zero = T::default();
        Self::new([[one, zero, zero], [zero, one, zero], [zero, zero, one]])
    }
}

/// Transposing twice gives back the original matrix.
pub proof fn lemma_transpose_involution<T>(m: [[T; 3]; 3])
    ensures
        transposed(transposed(m)) == m,
{
    let t = transposed(transposed(m));
    assert(t[0] =~= m[0]);
    assert(t[1] =~= m[1]);
    assert(t[2] =~= m[2]);
    assert(t =~= m);
}


/// For integer coordinates, a defined rotation `m * v` is the exact matrix-vector product.
pub proof fn lemma_rotated_exact<F: Frame, G: Frame, U: Unit>(
    m: [[i64; 3]; 3],
    v: Vector3<F, U, i64>,
)
    requires
        rotated_defined(m, v),
    ensures
        rotated::<F, G, U, i64>(m, v).x as int == m[0][0] * v.x + m[0][1] * v.y + m[0][2] * v.z,
        rotated::<F, G, U, i64>(m, v).y as int == m[1][0] * v.x + m[1][1] * v.y + m[1][2] * v.z,
        rotated::<F, G, U, i64>(m, v).z as int == m[2][0] * v.x + m[2][1] * v.y + m[2][2] * v.z,
{
    lemma_dot3_exact(m[0][0], m[0][1], m[0][2], v.x, v.y, v.z);
    lemma_dot3_exact(m[1][0], m[1][1], m[1][2], v.x, v.y, v.z);
    lemma_dot3_exact(m[2][0], m[2][1], m[2][2], v.x, v.y, v.z);
}

/// Whether the columns of the integer matrix `m` are orthonormal (`mᵀ m = I`).
pub open spec fn orthonormal_columns(m: [[i64; 3]; 3]) -> bool {
    forall|i: int, k: int|
        0 <= i < 3 && 0 <= k < 3 ==> #[trigger] (m[0][i] * m[0][k]) + m[1][i] * m[1][k] + m[2][i]
            * m[2][k] == if i == k {
            1int
        } else {
            0int
        }
}

/// The determinant of the integer matrix `m`, expanded along its first row.
pub open spec fn determinant(m: [[i64; 3]; 3]) -> int {
    det3(
        m[0][0] as int, m[0][1] as int, m[0][2] as int,
        m[1][0] as int, m[1][1] as int, m[1][2] as int,
        m[2][0] as int, m[2][1] as int, m[2][2] as int,
    )
}

/// A diagonal integer matrix whose diagonal entries are ±1 with product 1 is a proper
/// rotation: its columns are orthonormal and its determinant is 1.
pub(crate) proof fn lemma_signed_diagonal_is_rotation(m: [[i64; 3]; 3])
    requires
        m[0][1] == 0 && m[0][2] == 0 && m[1][0] == 0,
        m[1][2] == 0 && m[2][0] == 0 && m[2][1] == 0,
        m[0][0] == 1 || m[0][0] == -1,
        m[1][1] == 1 || m[1][1] == -1,
        m[2][2] == 1 || m[2][2] == -1,
        m[0][0] * m[1][1] * m[2][2] == 1,
    ensures
        orthonormal_columns(m),
        determinant(m) == 1,
{
    let (a, b, c) = (m[0][0] as int, m[1][1] as int, m[2][2] as int);
    assert(a * a == 1 && b * b == 1 && c * c == 1) by (nonlinear_arith)
        requires
            a == 1 || a == -1,
            b == 1 || b == -1,
            c == 1 || c == -1,
    ;
    assert(determinant(m) == a * (b * c)) by (nonlinear_arith)
        requires
            m[0][1] == 0 && m[0][2] == 0 && m[1][0] == 0,
            m[1][2] == 0 && m[2][0] == 0 && m[2][1] == 0,
            a == m[0][0] && b == m[1][1] && c == m[2][2],
    ;
    assert(a * (b * c) == 1) by (nonlinear_arith)
        requires
            a * b * c == 1,
    ;
    assert forall|i: int, k: int| 0 <= i < 3 && 0 <= k < 3 implies #[trigger] (m[0][i] * m[0][k])
        + m[1][i] * m[1][k] + m[2][i] * m[2][k] == if i == k {
        1int
    } else {
        0int
    } by {
        let (p0, p1, p2) = (m[0][i] as int, m[1][i] as int, m[2][i] as int);
        let (q0, q1, q2) = (m[0][k] as int, m[1][k] as int, m[2][k] as int);
        assert(p0 * q0 + p1 * q1 + p2 * q2 == if i == k {
            1int
        } else {
            0int
        }) by (nonlinear_arith)
            requires
                i == 0 ==> p0 == a && p1 == 0 && p2 == 0,
                i == 1 ==> p0 == 0 && p1 == b && p2 == 0,
                i == 2 ==> p0 == 0 && p1 == 0 && p2 == c,
                k == 0 ==> q0 == a && q1 == 0 && q2 == 0,
                k == 1 ==> q0 == 0 && q1 == b && q2 == 0,
                k == 2 ==> q0 == 0 && q1 == 0 && q2 == c,
                0 <= i < 3,
                0 <= k < 3,
                a * a == 1 && b * b == 1 && c * c == 1,
        ;
    }
}

/// Multiplication of integers commutes (stated for the three products of a row).
proof fn lemma_commute3(a0: int, a1: int, a2: int, b0: int, b1: int, b2: int)
    by (nonlinear_arith)
    ensures
        a0 * b0 + a1 * b1 + a2 * b2 == b0 * a0 + b1 * a1 + b2 * a2,
{
}

/// For integer matrices with orthonormal columns, `Σ_l m[l][i] (m v)_l = v_i`.
proof fn lemma_transposed_row_undoes(m: [[i64; 3]; 3], i: int, v0: int, v1: int, v2: int)
    requires
        orthonormal_columns(m),
        0 <= i < 3,
    ensures
        m[0][i] * (m[0][0] * v0 + m[0][1] * v1 + m[0][2] * v2) + m[1][i] * (m[1][0] * v0 + m[1][1]
            * v1 + m[1][2] * v2) + m[2][i] * (m[2][0] * v0 + m[2][1] * v1 + m[2][2] * v2) == if i
            == 0 {
            v0
        } else if i == 1 {
            v1
        } else {
            v2
        },
{
    assert((m[0][i] * m[0][0]) + m[1][i] * m[1][0] + m[2][i] * m[2][0] == if i == 0 {
        1int
    } else {
        0int
    });
    assert((m[0][i] * m[0][1]) + m[1][i] * m[1][1] + m[2][i] * m[2][1] == if i == 1 {
        1int
    } else {
        0int
    });
    assert((m[0][i] * m[0][2]) + m[1][i] * m[1][2] + m[2][i] * m[2][2] == if i == 2 {
        1int
    } else {
        0int
    });
    lemma_sum_of_products_regroups(
        m[0][i] as int, m[1][i] as int, m[2][i] as int,
        m[0][0] as int, m[0][1] as int, m[0][2] as int,
        m[1][0] as int, m[1][1] as int, m[1][2] as int,
        m[2][0] as int, m[2][1] as int, m[2][2] as int,
        v0, v1, v2,
    );
}

/// Inverse-rotation law: for an integer matrix with orthonormal columns, rotating by the
/// matrix and then by its transpose gives back the vector (`mᵀ (m v) = v`), where every step
/// is defined.
pub proof fn lemma_transpose_undoes_rotation<F: Frame, G: Frame, U: Unit>(
    m: [[i64; 3]; 3],
    v: Vector3<F, U, i64>,
)
    requires
        orthonormal_columns(m),
        rotated_defined(m, v),
        rotated_defined(transposed(m), rotated::<F, G, U, i64>(m, v)),
    ensures
        rotated::<G, F, U, i64>(transposed(m), rotated::<F, G, U, i64>(m, v)) == v,
{
    let w = rotated::<F, G, U, i64>(m, v);
    lemma_rotated_exact::<F, G, U>(m, v);
    lemma_rotated_exact::<G, F, U>(transposed(m), w);
    lemma_transposed_row_undoes(m, 0, v.x as int, v.y as int, v.z as int);
    lemma_transposed_row_undoes(m, 1, v.x as int, v.y as int, v.z as int);
    lemma_transposed_row_undoes(m, 2, v.x as int, v.y as int, v.z as int);
}

/// An integer matrix with orthonormal columns keeps dot products:
/// `(m c) · (m d) = c · d`.
proof fn lemma_dot_preserved(
    m: [[i64; 3]; 3],
    c0: int, c1: int, c2: int,
    d0: int, d1: int, d2: int,
)
    requires
        orthonormal_columns(m),
    ensures
        (m[0][0] * c0 + m[0][1] * c1 + m[0][2] * c2) * (m[0][0] * d0 + m[0][1] * d1 + m[0][2] * d2)
            + (m[1][0] * c0 + m[1][1] * c1 + m[1][2] * c2) * (m[1][0] * d0 + m[1][1] * d1 + m[1][2]
            * d2) + (m[2][0] * c0 + m[2][1] * c1 + m[2][2] * c2) * (m[2][0] * d0 + m[2][1] * d1
            + m[2][2] * d2) == c0 * d0 + c1 * d1 + c2 * d2,
{
    let u0 = m[0][0] * c0 + m[0][1] * c1 + m[0][2] * c2;
    let u1 = m[1][0] * c0 + m[1][1] * c1 + m[1][2] * c2;
    let u2 = m[2][0] * c0 + m[2][1] * c1 + m[2][2] * c2;
    // (m c) · (m d) = Σ_b (Σ_l u_l m[l][b]) d_b
    lemma_sum_of_products_regroups(
        u0, u1, u2,
        m[0][0] as int, m[0][1] as int, m[0][2] as int,
        m[1][0] as int, m[1][1] as int, m[1][2] as int,
        m[2][0] as int, m[2][1] as int, m[2][2] as int,
        d0, d1, d2,
    );
    // Σ_l u_l m[l][b] = Σ_l m[l][b] u_l = c_b
    lemma_commute3(u0, u1, u2, m[0][0] as int, m[1][0] as int, m[2][0] as int);
    lemma_commute3(u0, u1, u2, m[0][1] as int, m[1][1] as int, m[2][1] as int);
    lemma_commute3(u0, u1, u2, m[0][2] as int, m[1][2] as int, m[2][2] as int);
    lemma_transposed_row_undoes(m, 0, c0, c1, c2);
    lemma_transposed_row_undoes(m, 1, c0, c1, c2);
    lemma_transposed_row_undoes(m, 2, c0, c1, c2);
    lemma_commute3(u0, u1, u2, d0, d1, d2);
}

/// Rigidity law: a rotation by an integer matrix with orthonormal columns keeps dot products,
/// hence lengths and distances (`(m c) · (m d) = c · d`), where both rotations are defined.
pub proof fn lemma_rotation_keeps_dot<F: Frame, G: Frame, U: Unit>(
    m: [[i64; 3]; 3],
    c: Vector3<F, U, i64>,
    d: Vector3<F, U, i64>,
)
    requires
        orthonormal_columns(m),
        rotated_defined(m, c),
        rotated_defined(m, d),
    ensures
        ({
            let (rc, rd) = (rotated::<F, G, U, i64>(m, c), rotated::<F, G, U, i64>(m, d));
            rc.x * rd.x + rc.y * rd.y + rc.z * rd.z == c.x * d.x + c.y * d.y + c.z * d.z
        }),
{
    lemma_rotated_exact::<F, G, U>(m, c);
    lemma_rotated_exact::<F, G, U>(m, d);
    lemma_dot_preserved(m, c.x as int, c.y as int, c.z as int, d.x as int, d.y as int, d.z as int);
}

/// Chaining keeps orthonormality: the product of two integer matrices with orthonormal
/// columns has orthonormal columns, where every entry of the product is defined.
pub proof fn lemma_chain_keeps_orthonormal(s: [[i64; 3]; 3], n: [[i64; 3]; 3])
    requires
        orthonormal_columns(s),
        orthonormal_columns(n),
        product_defined(n, s),
    ensures
        orthonormal_columns(matrix_product(n, s)),
{
    let p = matrix_product(n, s);
    assert forall|i: int, j: int| 0 <= i < 3 && 0 <= j < 3 implies p[i][j] as int == n[i][0]
        * s[0][j] + n[i][1] * s[1][j] + n[i][2] * s[2][j] by {
        assert(dot3_defined(n[i][0], n[i][1], n[i][2], s[0][j], s[1][j], s[2][j]));
        lemma_dot3_exact(n[i][0], n[i][1], n[i][2], s[0][j], s[1][j], s[2][j]);
    }
    assert forall|i: int, k: int| 0 <= i < 3 && 0 <= k < 3 implies #[trigger] (p[0][i] * p[0][k])
        + p[1][i] * p[1][k] + p[2][i] * p[2][k] == if i == k {
        1int
    } else {
        0int
    } by {
        assert((s[0][i] * s[0][k]) + s[1][i] * s[1][k] + s[2][i] * s[2][k] == if i == k {
            1int
        } else {
            0int
        });
        lemma_dot_preserved(
            n,
            s[0][i] as int, s[1][i] as int, s[2][i] as int,
            s[0][k] as int, s[1][k] as int, s[2][k] as int,
        );
    }
}

/// The determinant of a 3×3 integer matrix given by its rows, expanded along the first row.
pub open spec fn det3(
    a00: int, a01: int, a02: int,
    a10: int, a11: int, a12: int,
    a20: int, a21: int, a22: int,
) -> int {
    a00 * (a11 * a22 - a12 * a21) - a01 * (a10 * a22 - a12 * a20) + a02 * (a10 * a21 - a11 * a20)
}

/// `(c d)(a b) = (a c)(b d) = (a c)(d b)` and `(a b)(c d) = (a c)(b d)`.
proof fn lemma_regroup4(a: int, b: int, c: int, d: int)
    by (nonlinear_arith)
    ensures
        (c * d) * (a * b) == (a * c) * (b * d),
        (c * d) * (a * b) == (a * c) * (d * b),
{
}

/// `(a - b)(c - d) = a c - a d - b c + b d`.
proof fn lemma_expand_differences(a: int, b: int, c: int, d: int)
    by (nonlinear_arith)
    ensures
        (a - b) * (c - d) == a * c - a * d - b * c + b * d,
{
}

/// `k (x - y + z) = k x - k y + k z` and `(x - y + z) k = x k - y k + z k`.
proof fn lemma_distribute_alternating(k: int, x: int, y: int, z: int)
    by (nonlinear_arith)
    ensures
        k * (x - y + z) == k * x - k * y + k * z,
        (x - y + z) * k == x * k - y * k + z * k,
{
}

/// Multiplying by a value equal to `d`, to `-d` or to `0`.
proof fn lemma_scale_by(k: int, e: int, d: int)
    by (nonlinear_arith)
    ensures
        e == d ==> k * e == k * d,
        e == -d ==> k * e == -(k * d),
        e == 0 ==> k * e == 0,
{
}

/// Binet–Cauchy for two rows and two columns: `(u·p)(v·q) - (u·q)(v·p)` is the sum, over
/// the pairs `k < l`, of the `(k, l)` minors of `(u, v)` and of `(p, q)` multiplied.
proof fn lemma_binet(
    u0: int, u1: int, u2: int, v0: int, v1: int, v2: int,
    p0: int, p1: int, p2: int, q0: int, q1: int, q2: int,
)
    ensures
        (u0 * p0 + u1 * p1 + u2 * p2) * (v0 * q0 + v1 * q1 + v2 * q2) - (u0 * q0 + u1 * q1 + u2
            * q2) * (v0 * p0 + v1 * p1 + v2 * p2) == (u0 * v1 - u1 * v0) * (p0 * q1 - p1 * q0) + (
        u0 * v2 - u2 * v0) * (p0 * q2 - p2 * q0) + (u1 * v2 - u2 * v1) * (p1 * q2 - p2 * q1),
{
    lemma_distribute3(u0 * p0, u1 * p1, u2 * p2, v0 * q0 + v1 * q1 + v2 * q2);
    lemma_distribute3(v0 * q0, v1 * q1, v2 * q2, u0 * p0);
    lemma_distribute3(v0 * q0, v1 * q1, v2 * q2, u1 * p1);
    lemma_distribute3(v0 * q0, v1 * q1, v2 * q2, u2 * p2);
    lemma_distribute3(u0 * q0, u1 * q1, u2 * q2, v0 * p0 + v1 * p1 + v2 * p2);
    lemma_distribute3(v0 * p0, v1 * p1, v2 * p2, u0 * q0);
    lemma_distribute3(v0 * p0, v1 * p1, v2 * p2, u1 * q1);
    lemma_distribute3(v0 * p0, v1 * p1, v2 * p2, u2 * q2);
    lemma_regroup4(u0, p0, v0, q0);
    lemma_regroup4(u0, q0, v0, p0);
    lemma_regroup4(u0, p0, v1, q1);
    lemma_regroup4(u0, q0, v1, p1);
    lemma_regroup4(u0, p0, v2, q2);
    lemma_regroup4(u0, q0, v2, p2);
    lemma_regroup4(u1, p1, v0, q0);
    lemma_regroup4(u1, q1, v0, p0);
    lemma_regroup4(u1, p1, v1, q1);
    lemma_regroup4(u1, q1, v1, p1);
    lemma_regroup4(u1, p1, v2, q2);
    lemma_regroup4(u1, q1, v2, p2);
    lemma_regroup4(u2, p2, v0, q0);
    lemma_regroup4(u2, q2, v0, p0);
    lemma_regroup4(u2, p2, v1, q1);
    lemma_regroup4(u2, q2, v1, p1);
    lemma_regroup4(u2, p2, v2, q2);
    lemma_regroup4(u2, q2, v2, p2);
    lemma_expand_differences(u0 * v1, u1 * v0, p0 * q1, p1 * q0);
    lemma_expand_differences(u0 * v2, u2 * v0, p0 * q2, p2 * q0);
    lemma_expand_differences(u1 * v2, u2 * v1, p1 * q2, p2 * q1);
}

/// Regrouping of a first-row expansion: `Σ_j ±(Σ_i x_i b_ij)(Σ_r c_r n_rj)` equals
/// `Σ_i Σ_r (x_i c_r)(Σ_j ± b_ij n_rj)`.
proof fn lemma_expansion_regroups(
    x0: int, x1: int, x2: int,
    b00: int, b01: int, b02: int, b10: int, b11: int, b12: int, b20: int, b21: int, b22: int,
    c0: int, c1: int, c2: int,
    n00: int, n01: int, n02: int, n10: int, n11: int, n12: int, n20: int, n21: int, n22: int,
)
    ensures
        (x0 * b00 + x1 * b10 + x2 * b20) * (c0 * n00 + c1 * n10 + c2 * n20)
            - (x0 * b01 + x1 * b11 + x2 * b21) * (c0 * n01 + c1 * n11 + c2 * n21)
            + (x0 * b02 + x1 * b12 + x2 * b22) * (c0 * n02 + c1 * n12 + c2 * n22)
            == (x0 * c0) * (b00 * n00 - b01 * n01 + b02 * n02)
            + (x0 * c1) * (b00 * n10 - b01 * n11 + b02 * n12)
            + (x0 * c2) * (b00 * n20 - b01 * n21 + b02 * n22)
            + (x1 * c0) * (b10 * n00 - b11 * n01 + b12 * n02)
            + (x1 * c1) * (b10 * n10 - b11 * n11 + b12 * n12)
            + (x1 * c2) * (b10 * n20 - b11 * n21 + b12 * n22)
            + (x2 * c0) * (b20 * n00 - b21 * n01 + b22 * n02)
            + (x2 * c1) * (b20 * n10 - b21 * n11 + b22 * n12)
            + (x2 * c2) * (b20 * n20 - b21 * n21 + b22 * n22),
{
    lemma_distribute3(x0 * b00, x1 * b10, x2 * b20, c0 * n00 + c1 * n10 + c2 * n20);
    lemma_distribute3(c0 * n00, c1 * n10, c2 * n20, x0 * b00);
    lemma_regroup4(x0, b00, c0, n00);
    lemma_regroup4(x0, b00, c1, n10);
    lemma_regroup4(x0, b00, c2, n20);
    lemma_distribute3(c0 * n00, c1 * n10, c2 * n20, x1 * b10);
    lemma_regroup4(x1, b10, c0, n00);
    lemma_regroup4(x1, b10, c1, n10);
    lemma_regroup4(x1, b10, c2, n20);
    lemma_distribute3(c0 * n00, c1 * n10, c2 * n20, x2 * b20);
    lemma_regroup4(x2, b20, c0, n00);
    lemma_regroup4(x2, b20, c1, n10);
    lemma_regroup4(x2, b20, c2, n20);
    lemma_distribute3(x0 * b01, x1 * b11, x2 * b21, c0 * n01 + c1 * n11 + c2 * n21);
    lemma_distribute3(c0 * n01, c1 * n11, c2 * n21, x0 * b01);
    lemma_regroup4(x0, b01, c0, n01);
    lemma_regroup4(x0, b01, c1, n11);
    lemma_regroup4(x0, b01, c2, n21);
    lemma_distribute3(c0 * n01, c1 * n11, c2 * n21, x1 * b11);
    lemma_regroup4(x1, b11, c0, n01);
    lemma_regroup4(x1, b11, c1, n11);
    lemma_regroup4(x1, b11, c2, n21);
    lemma_distribute3(c0 * n01, c1 * n11, c2 * n21, x2 * b21);
    lemma_regroup4(x2, b21, c0, n01);
    lemma_regroup4(x2, b21, c1, n11);
    lemma_regroup4(x2, b21, c2, n21);
    lemma_distribute3(x0 * b02, x1 * b12, x2 * b22, c0 * n02 + c1 * n12 + c2 * n22);
    lemma_distribute3(c0 * n02, c1 * n12, c2 * n22, x0 * b02);
    lemma_regroup4(x0, b02, c0, n02);
    lemma_regroup4(x0, b02, c1, n12);
    lemma_regroup4(x0, b02, c2, n22);
    lemma_distribute3(c0 * n02, c1 * n12, c2 * n22, x1 * b12);
    lemma_regroup4(x1, b12, c0, n02);
    lemma_regroup4(x1, b12, c1, n12);
    lemma_regroup4(x1, b12, c2, n22);
    lemma_distribute3(c0 * n02, c1 * n12, c2 * n22, x2 * b22);
    lemma_regroup4(x2, b22, c0, n02);
    lemma_regroup4(x2, b22, c1, n12);
    lemma_regroup4(x2, b22, c2, n22);
    lemma_distribute_alternating(x0 * c0, b00 * n00, b01 * n01, b02 * n02);
    lemma_distribute_alternating(x0 * c1, b00 * n10, b01 * n11, b02 * n12);
    lemma_distribute_alternating(x0 * c2, b00 * n20, b01 * n21, b02 * n22);
    lemma_distribute_alternating(x1 * c0, b10 * n00, b11 * n01, b12 * n02);
    lemma_distribute_alternating(x1 * c1, b10 * n10, b11 * n11, b12 * n12);
    lemma_distribute_alternating(x1 * c2, b10 * n20, b11 * n21, b12 * n22);
    lemma_distribute_alternating(x2 * c0, b20 * n00, b21 * n01, b22 * n02);
    lemma_distribute_alternating(x2 * c1, b20 * n10, b21 * n11, b22 * n12);
    lemma_distribute_alternating(x2 * c2, b20 * n20, b21 * n21, b22 * n22);
}


/// The first-row expansion of `det3(r0, r1, r2)` with each 2×2 minor written as
/// `r1_a r2_b - r2_a r1_b`.
proof fn lemma_minor_orientation(
    r00: int, r01: int, r02: int, r10: int, r11: int, r12: int, r20: int, r21: int, r22: int,
)
    by (nonlinear_arith)
    ensures
        r00 * (r11 * r22 - r21 * r12) - r01 * (r10 * r22 - r20 * r12) + r02 * (r10 * r21 - r20
            * r11) == det3(r00, r01, r02, r10, r11, r12, r20, r21, r22),
{
}

/// `a (b c - d e)` written as a difference of two triple products, in three orders.
proof fn lemma_expand_term(a: int, b: int, c: int, d: int, e: int)
    by (nonlinear_arith)
    ensures
        a * (b * c - d * e) == (a * b) * c - (a * d) * e,
        a * (b * c - d * e) == (b * a) * c - (d * a) * e,
        a * (b * c - d * e) == (b * c) * a - (d * e) * a,
{
}

/// Exchanging the first two rows changes the sign of the determinant.
proof fn lemma_det3_swap(
    r00: int, r01: int, r02: int, r10: int, r11: int, r12: int, r20: int, r21: int, r22: int,
)
    ensures
        det3(r10, r11, r12, r00, r01, r02, r20, r21, r22) == -det3(r00, r01, r02, r10, r11, r12, r20, r21, r22),
{
    lemma_expand_term(r00, r11, r22, r12, r21);
    lemma_expand_term(r01, r10, r22, r12, r20);
    lemma_expand_term(r02, r10, r21, r11, r20);
    lemma_expand_term(r10, r01, r22, r02, r21);
    lemma_expand_term(r11, r00, r22, r02, r20);
    lemma_expand_term(r12, r00, r21, r01, r20);
}

/// Moving the last row first keeps the determinant.
proof fn lemma_det3_cycle(
    r00: int, r01: int, r02: int, r10: int, r11: int, r12: int, r20: int, r21: int, r22: int,
)
    ensures
        det3(r20, r21, r22, r00, r01, r02, r10, r11, r12) == det3(r00, r01, r02, r10, r11, r12, r20, r21, r22),
{
    lemma_expand_term(r00, r11, r22, r12, r21);
    lemma_expand_term(r01, r10, r22, r12, r20);
    lemma_expand_term(r02, r10, r21, r11, r20);
    lemma_expand_term(r20, r01, r12, r02, r11);
    lemma_expand_term(r21, r00, r12, r02, r10);
    lemma_expand_term(r22, r00, r11, r01, r10);
}

/// A determinant with two equal rows vanishes.
proof fn lemma_det3_repeated(r0: int, r1: int, r2: int, s0: int, s1: int, s2: int)
    by (nonlinear_arith)
    ensures
        det3(r0, r1, r2, r0, r1, r2, s0, s1, s2) == 0,
        det3(s0, s1, s2, r0, r1, r2, s0, s1, s2) == 0,
{
}

/// The determinant of a product is the product of the determinants, over the integers.
proof fn lemma_det3_product(
    a00: int, a01: int, a02: int, a10: int, a11: int, a12: int, a20: int, a21: int, a22: int,
    b00: int, b01: int, b02: int, b10: int, b11: int, b12: int, b20: int, b21: int, b22: int,
)
    ensures
        det3(
            a00 * b00 + a01 * b10 + a02 * b20, a00 * b01 + a01 * b11 + a02 * b21, a00 * b02 + a01 * b12 + a02 * b22,
            a10 * b00 + a11 * b10 + a12 * b20, a10 * b01 + a11 * b11 + a12 * b21, a10 * b02 + a11 * b12 + a12 * b22,
            a20 * b00 + a21 * b10 + a22 * b20, a20 * b01 + a21 * b11 + a22 * b21, a20 * b02 + a21 * b12 + a22 * b22,
        ) == det3(a00, a01, a02, a10, a11, a12, a20, a21, a22) * det3(
            b00, b01, b02, b10, b11, b12, b20, b21, b22,
        ),
{
    // the 2×2 minors of rows 1 and 2 of `a`, and of the row pairs of `b`
    let (c0, c1, c2) = (a10 * a21 - a11 * a20, a10 * a22 - a12 * a20, a11 * a22 - a12 * a21);
    let (n00, n01, n02) = (b01 * b12 - b11 * b02, b00 * b12 - b10 * b02, b00 * b11 - b10 * b01);
    let (n10, n11, n12) = (b01 * b22 - b21 * b02, b00 * b22 - b20 * b02, b00 * b21 - b20 * b01);
    let (n20, n21, n22) = (b11 * b22 - b21 * b12, b10 * b22 - b20 * b12, b10 * b21 - b20 * b11);
    // the minors of rows 1 and 2 of the product, by Binet–Cauchy
    lemma_binet(a10, a11, a12, a20, a21, a22, b01, b11, b21, b02, b12, b22);
    lemma_binet(a10, a11, a12, a20, a21, a22, b00, b10, b20, b02, b12, b22);
    lemma_binet(a10, a11, a12, a20, a21, a22, b00, b10, b20, b01, b11, b21);
    lemma_expansion_regroups(
        a00, a01, a02, b00, b01, b02, b10, b11, b12, b20, b21, b22,
        c0, c1, c2, n00, n01, n02, n10, n11, n12, n20, n21, n22,
    );
    let d = det3(b00, b01, b02, b10, b11, b12, b20, b21, b22);
    lemma_minor_orientation(b00, b01, b02, b00, b01, b02, b10, b11, b12);
    lemma_minor_orientation(b00, b01, b02, b00, b01, b02, b20, b21, b22);
    lemma_minor_orientation(b00, b01, b02, b10, b11, b12, b20, b21, b22);
    lemma_minor_orientation(b10, b11, b12, b00, b01, b02, b10, b11, b12);
    lemma_minor_orientation(b10, b11, b12, b00, b01, b02, b20, b21, b22);
    lemma_minor_orientation(b10, b11, b12, b10, b11, b12, b20, b21, b22);
    lemma_minor_orientation(b20, b21, b22, b00, b01, b02, b10, b11, b12);
    lemma_minor_orientation(b20, b21, b22, b00, b01, b02, b20, b21, b22);
    lemma_minor_orientation(b20, b21, b22, b10, b11, b12, b20, b21, b22);
    lemma_det3_swap(b00, b01, b02, b10, b11, b12, b20, b21, b22);
    lemma_det3_cycle(b00, b01, b02, b10, b11, b12, b20, b21, b22);
    lemma_det3_repeated(b00, b01, b02, b10, b11, b12);
    lemma_det3_repeated(b00, b01, b02, b20, b21, b22);
    lemma_det3_repeated(b10, b11, b12, b20, b21, b22);
    lemma_scale_by(a00 * c0, b00 * n00 - b01 * n01 + b02 * n02, d);
    lemma_scale_by(a00 * c1, b00 * n10 - b01 * n11 + b02 * n12, d);
    lemma_scale_by(a00 * c2, b00 * n20 - b01 * n21 + b02 * n22, d);
    lemma_scale_by(a01 * c0, b10 * n00 - b11 * n01 + b12 * n02, d);
    lemma_scale_by(a01 * c1, b10 * n10 - b11 * n11 + b12 * n12, d);
    lemma_scale_by(a01 * c2, b10 * n20 - b11 * n21 + b12 * n22, d);
    lemma_scale_by(a02 * c0, b20 * n00 - b21 * n01 + b22 * n02, d);
    lemma_scale_by(a02 * c1, b20 * n10 - b21 * n11 + b22 * n12, d);
    lemma_scale_by(a02 * c2, b20 * n20 - b21 * n21 + b22 * n22, d);
    lemma_distribute_alternating(d, a00 * c2, a01 * c1, a02 * c0);
}


/// Determinant law: the determinant of the chained matrix `n * s` is the product of the
/// determinants, for integer matrices where every entry of the product is defined.
pub proof fn lemma_chain_determinant(s: [[i64; 3]; 3], n: [[i64; 3]; 3])
    requires
        product_defined(n, s),
    ensures
        determinant(matrix_product(n, s)) == determinant(n) * determinant(s),
{
    let p = matrix_product(n, s);
    assert forall|i: int, j: int| 0 <= i < 3 && 0 <= j < 3 implies p[i][j] as int == n[i][0]
        * s[0][j] + n[i][1] * s[1][j] + n[i][2] * s[2][j] by {
        assert(dot3_defined(n[i][0], n[i][1], n[i][2], s[0][j], s[1][j], s[2][j]));
        lemma_dot3_exact(n[i][0], n[i][1], n[i][2], s[0][j], s[1][j], s[2][j]);
    }
    lemma_det3_product(
        n[0][0] as int, n[0][1] as int, n[0][2] as int,
        n[1][0] as int, n[1][1] as int, n[1][2] as int,
        n[2][0] as int, n[2][1] as int, n[2][2] as int,
        s[0][0] as int, s[0][1] as int, s[0][2] as int,
        s[1][0] as int, s[1][1] as int, s[1][2] as int,
        s[2][0] as int, s[2][1] as int, s[2][2] as int,
    );
}

/// Chaining keeps proper rotations: the product of two integer matrices with orthonormal
/// columns and determinant 1 again has orthonormal columns and determinant 1, where every
/// entry of the product is defined.
pub proof fn lemma_chain_keeps_proper_rotation(s: [[i64; 3]; 3], n: [[i64; 3]; 3])
    requires
        orthonormal_columns(s),
        orthonormal_columns(n),
        determinant(s) == 1,
        determinant(n) == 1,
        product_defined(n, s),
    ensures
        orthonormal_columns(matrix_product(n, s)),
        determinant(matrix_product(n, s)) == 1,
{
    lemma_chain_keeps_orthonormal(s, n);
    lemma_chain_determinant(s, n);
}

/// Composition law: rotating by the chained matrix `n * s` equals rotating by `s` and then
/// by `n` (R_A→B followed by R_B→C is R_A→C), for integer coordinates where every step is
/// defined.
pub proof fn lemma_chain_rotates_in_sequence<A: Frame, B: Frame, C: Frame, U: Unit>(
    s: DirectionCosineMatrix<A, B, i64>,
    n: DirectionCosineMatrix<B, C, i64>,
    v: Vector3<A, U, i64>,
)
    requires
        product_defined(n.m, s.m),
        rotated_defined(matrix_product(n.m, s.m), v),
        rotated_defined(s.m, v),
        rotated_defined(n.m, rotated::<A, B, U, i64>(s.m, v)),
    ensures
        rotated::<A, C, U, i64>(matrix_product(n.m, s.m), v) == rotated::<B, C, U, i64>(
            n.m,
            rotated::<A, B, U, i64>(s.m, v),
        ),
{
    let p = matrix_product(n.m, s.m);
    let w = rotated::<A, B, U, i64>(s.m, v);
    let (a, b) = (n.m, s.m);
    assert forall|i: int, j: int| 0 <= i < 3 && 0 <= j < 3 implies p[i][j] as int == a[i][0]
        * b[0][j] + a[i][1] * b[1][j] + a[i][2] * b[2][j] by {
        assert(dot3_defined(a[i][0], a[i][1], a[i][2], b[0][j], b[1][j], b[2][j]));
        lemma_dot3_exact(a[i][0], a[i][1], a[i][2], b[0][j], b[1][j], b[2][j]);
    }
    lemma_dot3_exact(b[0][0], b[0][1], b[0][2], v.x, v.y, v.z);
    lemma_dot3_exact(b[1][0], b[1][1], b[1][2], v.x, v.y, v.z);
    lemma_dot3_exact(b[2][0], b[2][1], b[2][2], v.x, v.y, v.z);
    assert forall|i: int| 0 <= i < 3 implies dot3(p[i][0], p[i][1], p[i][2], v.x, v.y, v.z)
        == dot3(a[i][0], a[i][1], a[i][2], w.x, w.y, w.z) by {
        lemma_dot3_exact(p[i][0], p[i][1], p[i][2], v.x, v.y, v.z);
        lemma_dot3_exact(a[i][0], a[i][1], a[i][2], w.x, w.y, w.z);
        lemma_sum_of_products_regroups(
            a[i][0] as int, a[i][1] as int, a[i][2] as int,
            b[0][0] as int, b[0][1] as int, b[0][2] as int,
            b[1][0] as int, b[1][1] as int, b[1][2] as int,
            b[2][0] as int, b[2][1] as int, b[2][2] as int,
            v.x as int, v.y as int, v.z as int,
        );
    }
}

/// `(a b) v = a (b v)` for one row `a` of a product, written out over the integers.
pub(crate) proof fn lemma_sum_of_products_regroups(
    a0: int, a1: int, a2: int,
    b00: int, b01: int, b02: int,
    b10: int, b11: int, b12: int,
    b20: int, b21: int, b22: int,
    v0: int, v1: int, v2: int,
)
    ensures
        (a0 * b00 + a1 * b10 + a2 * b20) * v0 + (a0 * b01 + a1 * b11 + a2 * b21) * v1 + (a0 * b02
            + a1 * b12 + a2 * b22) * v2 == a0 * (b00 * v0 + b01 * v1 + b02 * v2) + a1 * (b10 * v0
            + b11 * v1 + b12 * v2) + a2 * (b20 * v0 + b21 * v1 + b22 * v2),
{
    lemma_distribute3(a0 * b00, a1 * b10, a2 * b20, v0);
    lemma_distribute3(a0 * b01, a1 * b11, a2 * b21, v1);
    lemma_distribute3(a0 * b02, a1 * b12, a2 * b22, v2);
    lemma_distribute3(b00 * v0, b01 * v1, b02 * v2, a0);
    lemma_distribute3(b10 * v0, b11 * v1, b12 * v2, a1);
    lemma_distribute3(b20 * v0, b21 * v1, b22 * v2, a2);
    lemma_reassociate(a0, b00, v0);
    lemma_reassociate(a0, b01, v1);
    lemma_reassociate(a0, b02, v2);
    lemma_reassociate(a1, b10, v0);
    lemma_reassociate(a1, b11, v1);
    lemma_reassociate(a1, b12, v2);
    lemma_reassociate(a2, b20, v0);
    lemma_reassociate(a2, b21, v1);
    lemma_reassociate(a2, b22, v2);
}

/// `(x + y + z) c = x c + y c + z c` and `c (x + y + z) = x c + y c + z c`.
pub(crate) proof fn lemma_distribute3(x: int, y: int, z: int, c: int)
    by (nonlinear_arith)
    ensures
        (x + y + z) * c == x * c + y * c + z * c,
        c * (x + y + z) == x * c + y * c + z * c,
{
}

/// `(a b) c = (b c) a`.
proof fn lemma_reassociate(a: int, b: int, c: int)
    by (nonlinear_arith)
    ensures
        (a * b) * c == (b * c) * a,
{
}

} // verus!
