use frame_sc::{
    BodyFrame, DirectionCosineMatrix, Ecef, LocalNed, MaritimeTargetFrame, Meters, Point3, Pose3D,
    Quaternion, Scalar, Transform3D, Vector3,
};

type V = Vector3<BodyFrame, Meters, i64>;
type P = Point3<LocalNed, Meters, i64>;

#[test]
fn point_plus_displacement_lands_on_target() {
    let p: P = Point3::new(10, 20, -5);
    let q: P = Point3::new(14, 16, -2);
    assert_eq!(p + (q - p), q);
    assert_eq!(q - (q - p), p);
    let v: Vector3<LocalNed, Meters, i64> = Vector3::new(-7, 3, 100);
    assert_eq!((p + v) - p, v);
}

#[test]
fn affine_laws_hold_on_exact_floats() {
    let p: Point3<LocalNed, Meters, f32> = Point3::new(1.5, -2.25, 8.0);
    let q: Point3<LocalNed, Meters, f32> = Point3::new(-0.5, 4.0, 2.0);
    assert_eq!(p + (q - p), q);
    assert_eq!(q - (q - p), p);
}

#[test]
fn vector_sum_then_difference_and_double_negation() {
    let a: V = Vector3::new(1, -2, 3);
    let b: V = Vector3::new(40, 50, -60);
    assert_eq!((a + b) - b, a);
    assert_eq!(-(-a), a);
    assert_eq!(a + b, Vector3::new(41, 48, -57));
    assert_eq!(b - a, Vector3::new(39, 52, -63));
    assert_eq!(a * 3, Vector3::new(3, -6, 9));
    assert_eq!(b / 10, Vector3::new(4, 5, -6));
}

#[test]
fn vector_assign_operators() {
    let mut v: V = Vector3::new(1, 2, 3);
    v += Vector3::new(10, 20, 30);
    assert_eq!(v, Vector3::new(11, 22, 33));
    v -= Vector3::new(1, 2, 3);
    assert_eq!(v, Vector3::new(10, 20, 30));
    v *= 2;
    assert_eq!(v, Vector3::new(20, 40, 60));
    v /= 4;
    assert_eq!(v, Vector3::new(5, 10, 15));
}

#[test]
fn point_assign_operators() {
    let mut p: P = Point3::new(1, 1, 1);
    p += Vector3::new(2, 3, 4);
    assert_eq!(p, Point3::new(3, 4, 5));
    p -= Vector3::new(3, 4, 5);
    assert_eq!(p, Point3::origin());
}

#[test]
fn zero_origin_and_arrays() {
    assert_eq!(Vector3::<BodyFrame, Meters, f32>::zero(), Vector3::new(0.0, 0.0, 0.0));
    assert_eq!(Vector3::<BodyFrame, Meters, f64>::zeros(), Vector3::default());
    assert_eq!(Point3::<LocalNed, Meters, i64>::zero(), Point3::new(0, 0, 0));
    assert_eq!(Point3::<LocalNed, Meters, i64>::default(), Point3::origin());

    let v: V = Vector3::from_array([7, 8, 9]);
    assert_eq!(v, Vector3::new(7, 8, 9));
    assert_eq!(v.as_array(), [7, 8, 9]);
    let p: P = Point3::from_array([-1, 0, 1]);
    assert_eq!(p.as_array(), [-1, 0, 1]);
    assert_eq!(p.to_vector(), Vector3::new(-1, 0, 1));
}

#[test]
fn transpose_swaps_rows_and_columns_and_is_an_involution() {
    let m: DirectionCosineMatrix<LocalNed, BodyFrame, i64> =
        DirectionCosineMatrix::new([[1, 2, 3], [4, 5, 6], [7, 8, 9]]);
    let t = m.transpose();
    assert_eq!(t.m, [[1, 4, 7], [2, 5, 8], [3, 6, 9]]);
    assert_eq!(t.transpose(), m);
}

#[test]
fn dcm_identity_and_rows() {
    let id = DirectionCosineMatrix::<BodyFrame, BodyFrame, f32>::identity();
    assert_eq!(id.m, [[1.0, 0.0, 0.0], [0.0, 1.0, 0.0], [0.0, 0.0, 1.0]]);
    let idi = DirectionCosineMatrix::<Ecef, Ecef, i64>::identity();
    assert_eq!(idi.m, [[1, 0, 0], [0, 1, 0], [0, 0, 1]]);
    let r: DirectionCosineMatrix<LocalNed, BodyFrame, i64> =
        DirectionCosineMatrix::from_rows([0, 1, 0], [-1, 0, 0], [0, 0, 1]);
    assert_eq!(r.m, [[0, 1, 0], [-1, 0, 0], [0, 0, 1]]);
}

#[test]
fn quaternion_conjugate_negates_the_vector_part() {
    let q: Quaternion<LocalNed, BodyFrame, i64> = Quaternion::new(1, 2, -3, 4);
    let c: Quaternion<BodyFrame, LocalNed, i64> = q.conjugate();
    assert_eq!(c, Quaternion::new(1, -2, 3, -4));
    assert_eq!(c.conjugate(), q);
    let qf: Quaternion<LocalNed, BodyFrame, f32> = Quaternion::new(0.5, 0.5, -0.5, 0.5);
    assert_eq!(qf.conjugate(), Quaternion::new(0.5, -0.5, 0.5, -0.5));
}

#[test]
fn rigid_transform_and_pose_construction() {
    let dcm = DirectionCosineMatrix::<MaritimeTargetFrame, Ecef, f32>::new([
        [1.0, 0.0, 0.0],
        [0.0, 1.0, 0.0],
        [0.0, 0.0, 1.0],
    ]);
    let t: Vector3<Ecef, Meters, f32> = Vector3::new(1000.0, 2000.0, 3000.0);
    let tf = Transform3D::new(dcm, t);
    assert_eq!(tf.dcm, dcm);
    assert_eq!(tf.translation, t);

    let rot: Transform3D<MaritimeTargetFrame, Ecef, Meters, f32> = Transform3D::pure_rotation(dcm);
    assert_eq!(rot.translation, Vector3::new(0.0, 0.0, 0.0));

    let pos: Point3<Ecef, Meters, f32> = Point3::new(50.0, 100.0, -25.0);
    let pose = Pose3D::new(pos, dcm);
    let as_tf = pose.to_transform();
    assert_eq!(as_tf.dcm, dcm);
    assert_eq!(as_tf.translation, Vector3::new(50.0, 100.0, -25.0));
}

#[test]
fn scalar_arithmetic_and_comparison() {
    let a: Scalar<Meters, i64> = Scalar::new(7);
    let b: Scalar<Meters, i64> = Scalar::new(3);
    assert_eq!((a + b).raw(), 10);
    assert_eq!((a - b).raw(), 4);
    assert_eq!((-a).raw(), -7);
    assert_eq!((a * 2).raw(), 14);
    assert_eq!((a / 2).raw(), 3);
    assert_eq!((a + b) - b, a);
    assert!(b < a);
    assert!(a != b);

    let mut c: Scalar<Meters, f64> = Scalar::new(1.5);
    c += Scalar::new(1.0);
    c -= Scalar::new(0.5);
    c *= 4.0;
    c /= 2.0;
    assert_eq!(c.raw(), 4.0);
    assert!(Scalar::<Meters, f64>::new(f64::NAN).partial_cmp(&c).is_none());
}
