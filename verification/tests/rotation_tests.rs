use frame_sc::{
    BodyFrame, DirectionCosineMatrix, Ecef, LocalNed, MaritimeTargetFrame, Meters, Point3, Pose3D,
    Quaternion, Transform3D, Vector3,
};

// 90° yaw as an exact integer rotation: north (x) maps to -y.
fn yaw90() -> DirectionCosineMatrix<LocalNed, BodyFrame, i64> {
    DirectionCosineMatrix::new([[0, 1, 0], [-1, 0, 0], [0, 0, 1]])
}

#[test]
fn dcm_rotate_vector_exact() {
    let north: Vector3<LocalNed, Meters, i64> = Vector3::new(10, 0, 0);
    let body = yaw90().rotate_vector(north);
    assert_eq!(body, Vector3::new(0, -10, 0));
    assert_eq!(north.rotate_to(&yaw90()), body);
    let restored = yaw90().transpose().rotate_vector(body);
    assert_eq!(restored, north);
}

#[test]
fn dcm_chain_equals_sequential_rotation() {
    let a = yaw90();
    let b: DirectionCosineMatrix<BodyFrame, MaritimeTargetFrame, i64> =
        DirectionCosineMatrix::new([[1, 0, 0], [0, 0, 1], [0, -1, 0]]);
    let v: Vector3<LocalNed, Meters, i64> = Vector3::new(3, -2, 7);
    let ab = a.chain(&b);
    assert_eq!(ab.rotate_vector(v), b.rotate_vector(a.rotate_vector(v)));
    assert_eq!((a * b).m, ab.m);
    // general (non-rotation) matrices: the product is next * self
    let s: DirectionCosineMatrix<LocalNed, BodyFrame, i64> =
        DirectionCosineMatrix::new([[1, 2, 3], [4, 5, 6], [7, 8, 9]]);
    let n: DirectionCosineMatrix<BodyFrame, Ecef, i64> =
        DirectionCosineMatrix::new([[1, 0, 1], [0, 2, 0], [1, 1, 1]]);
    assert_eq!(s.chain(&n).m, [[8, 10, 12], [8, 10, 12], [12, 15, 18]]);
}

#[test]
fn dcm_chain_with_identity_floats() {
    let a = DirectionCosineMatrix::<LocalNed, BodyFrame, f32>::new([
        [0.0, 1.0, 0.0],
        [-1.0, 0.0, 0.0],
        [0.0, 0.0, 1.0],
    ]);
    let id = DirectionCosineMatrix::<BodyFrame, BodyFrame, f32>::identity();
    assert_eq!((a * id).m, a.m);
}

#[test]
fn quaternion_product_norm_and_matrix() {
    // q = k (180° about z), p = i (180° about x)
    let q: Quaternion<LocalNed, BodyFrame, i64> = Quaternion::new(0, 0, 0, 1);
    let p: Quaternion<BodyFrame, Ecef, i64> = Quaternion::new(0, 1, 0, 0);
    let qp = q * p;
    // k * i = j
    assert_eq!(qp, Quaternion::new(0, 0, 1, 0));
    assert_eq!(q.norm_sq(), 1);
    assert_eq!(Quaternion::<LocalNed, BodyFrame, i64>::new(1, 2, 3, 4).norm_sq(), 30);
    assert_eq!(q.to_dcm().m, [[-1, 0, 0], [0, -1, 0], [0, 0, 1]]);
    let v: Vector3<LocalNed, Meters, i64> = Vector3::new(3, -2, 7);
    assert_eq!(q.rotate_vector(v), q.to_dcm().rotate_vector(v));
    assert_eq!(q.rotate_vector(v), Vector3::new(-3, 2, 7));
}

#[test]
fn quaternion_float_identity() {
    let id: Quaternion<LocalNed, BodyFrame, f64> = Quaternion::new(1.0, 0.0, 0.0, 0.0);
    let v: Vector3<LocalNed, Meters, f64> = Vector3::new(5.0, 1.0, -8.0);
    assert_eq!(id.rotate_vector(v), Vector3::new(5.0, 1.0, -8.0));
    assert_eq!(id.to_dcm().m, [[1.0, 0.0, 0.0], [0.0, 1.0, 0.0], [0.0, 0.0, 1.0]]);
    assert_eq!(id.norm_sq(), 1.0);
}

#[test]
fn transform_chain_inverse_and_pose() {
    let t1: Transform3D<LocalNed, BodyFrame, Meters, i64> =
        Transform3D::new(yaw90(), Vector3::new(1, 2, 3));
    let t2: Transform3D<BodyFrame, Ecef, Meters, i64> = Transform3D::new(
        DirectionCosineMatrix::new([[1, 0, 0], [0, 0, 1], [0, -1, 0]]),
        Vector3::new(-5, 0, 10),
    );
    let p: Point3<LocalNed, Meters, i64> = Point3::new(4, -1, 2);
    let chained = t1.chain(&t2);
    assert_eq!(chained.transform_point(p), t2.transform_point(t1.transform_point(p)));
    assert_eq!(t1.inverse().transform_point(t1.transform_point(p)), p);
    assert_eq!(t1.transform_vector(Vector3::new(10, 0, 0)), Vector3::new(0, -10, 0));

    let pose = Pose3D::new(Point3::new(50, 100, -25), yaw90().transpose());
    let pt: Point3<BodyFrame, Meters, i64> = Point3::new(0, -5, 0);
    assert_eq!(pose.transform_point(pt), Point3::new(55, 100, -25));
    assert_eq!(pose.transform_vector(Vector3::new(0, -5, 0)), Vector3::new(5, 0, 0));
    let inv = pose.inverse();
    assert_eq!(inv.transform_point(pose.transform_point(pt)), pt);
}

#[test]
fn quaternion_product_rotates_in_sequence() {
    let q1: Quaternion<LocalNed, BodyFrame, i64> = Quaternion::new(0, 0, 1, 0);
    let q2: Quaternion<BodyFrame, Ecef, i64> = Quaternion::new(0, 0, 0, -1);
    let v: Vector3<LocalNed, Meters, i64> = Vector3::new(3, -2, 7);
    assert_eq!((q1 * q2).rotate_vector(v), q2.rotate_vector(q1.rotate_vector(v)));
    assert_eq!(q1.rotate_vector(v), Vector3::new(-3, -2, -7));
}

fn det(m: [[i64; 3]; 3]) -> i64 {
    m[0][0] * (m[1][1] * m[2][2] - m[1][2] * m[2][1]) - m[0][1] * (m[1][0] * m[2][2] - m[1][2] * m[2][0])
        + m[0][2] * (m[1][0] * m[2][1] - m[1][1] * m[2][0])
}

fn columns_orthonormal(m: [[i64; 3]; 3]) -> bool {
    (0..3).all(|i| {
        (0..3).all(|k| {
            let d = m[0][i] * m[0][k] + m[1][i] * m[1][k] + m[2][i] * m[2][k];
            d == if i == k { 1 } else { 0 }
        })
    })
}

#[test]
fn unit_quaternion_matrix_is_proper_rotation() {
    let units = [
        (1, 0, 0, 0),
        (-1, 0, 0, 0),
        (0, 1, 0, 0),
        (0, -1, 0, 0),
        (0, 0, 1, 0),
        (0, 0, -1, 0),
        (0, 0, 0, 1),
        (0, 0, 0, -1),
    ];
    let v: Vector3<LocalNed, Meters, i64> = Vector3::new(3, -2, 7);
    for (w, x, y, z) in units {
        let q: Quaternion<LocalNed, BodyFrame, i64> = Quaternion::new(w, x, y, z);
        let m = q.to_dcm().m;
        assert!(columns_orthonormal(m));
        assert_eq!(det(m), 1);
        assert_eq!(q.rotate_vector(v), q.to_dcm().rotate_vector(v));
    }
    let qx: Quaternion<LocalNed, BodyFrame, i64> = Quaternion::new(0, 1, 0, 0);
    assert_eq!(qx.to_dcm().m, [[1, 0, 0], [0, -1, 0], [0, 0, -1]]);
}

#[test]
fn conjugate_matrix_is_transpose() {
    let q: Quaternion<LocalNed, BodyFrame, i64> = Quaternion::new(1, 2, 3, 4);
    assert_eq!(q.to_dcm().m, [[-49, 20, 10], [4, -39, 28], [22, 20, -25]]);
    assert_eq!(q.conjugate().to_dcm().m, [[-49, 4, 22], [20, -39, 20], [10, 28, -25]]);
    assert_eq!(q.conjugate().to_dcm().m, q.to_dcm().transpose().m);
    assert_eq!(q.conjugate().conjugate(), q);
}

#[test]
fn rigid_transform_maps_differences_and_keeps_dot() {
    let t: Transform3D<LocalNed, BodyFrame, Meters, i64> =
        Transform3D::new(yaw90(), Vector3::new(1, 2, 3));
    let p: Point3<LocalNed, Meters, i64> = Point3::new(4, -1, 2);
    let q: Point3<LocalNed, Meters, i64> = Point3::new(-3, 5, 9);
    let d = t.transform_point(p) - t.transform_point(q);
    assert_eq!(d, t.transform_vector(p - q));
    assert_eq!(d, Vector3::new(-6, -7, -7));
    let a: Vector3<LocalNed, Meters, i64> = Vector3::new(3, -2, 7);
    let b: Vector3<LocalNed, Meters, i64> = Vector3::new(-1, 4, 2);
    assert_eq!(yaw90().rotate_vector(a).dot(yaw90().rotate_vector(b)), a.dot(b));
    assert_eq!(yaw90().rotate_vector(a).dot(yaw90().rotate_vector(a)), 62);
}

#[test]
fn chain_keeps_proper_rotation_and_multiplies_determinants() {
    let b: DirectionCosineMatrix<BodyFrame, Ecef, i64> =
        DirectionCosineMatrix::new([[1, 0, 0], [0, 0, 1], [0, -1, 0]]);
    let ab = yaw90().chain(&b);
    assert!(columns_orthonormal(ab.m));
    assert_eq!(det(ab.m), 1);
    assert_eq!(ab.m, [[0, 1, 0], [0, 0, 1], [1, 0, 0]]);

    let s: DirectionCosineMatrix<LocalNed, BodyFrame, i64> =
        DirectionCosineMatrix::new([[2, 0, 0], [0, 3, 0], [0, 0, 1]]);
    let n: DirectionCosineMatrix<BodyFrame, Ecef, i64> =
        DirectionCosineMatrix::new([[1, 2, 0], [0, 1, 0], [0, 0, 5]]);
    assert_eq!(det(s.chain(&n).m), det(s.m) * det(n.m));
    assert_eq!(det(s.chain(&n).m), 30);
}
