use core::mem::size_of;
use frame_sc::{
    BodyFrame, DirectionCosineMatrix, Ecef, LocalNed, MaritimeTargetFrame, Meters, Point3,
    Quaternion, Scalar, Transform3D, Vector3,
};

#[test]
fn test_zero_cost_memory_layout() {
    // Verify that Vector3, Point3, and DCM have exact same size as raw float arrays
    assert_eq!(
        size_of::<Vector3<BodyFrame, Meters, f32>>(),
        size_of::<[f32; 3]>()
    );
    assert_eq!(
        size_of::<Point3<LocalNed, Meters, f32>>(),
        size_of::<[f32; 3]>()
    );
    assert_eq!(
        size_of::<DirectionCosineMatrix<LocalNed, BodyFrame, f32>>(),
        size_of::<[[f32; 3]; 3]>()
    );
    assert_eq!(size_of::<Scalar<Meters, f32>>(), size_of::<f32>());

    assert_eq!(
        size_of::<Vector3<BodyFrame, Meters, f64>>(),
        size_of::<[f64; 3]>()
    );
    assert_eq!(
        size_of::<Point3<LocalNed, Meters, f64>>(),
        size_of::<[f64; 3]>()
    );
    assert_eq!(
        size_of::<Quaternion<LocalNed, BodyFrame, f32>>(),
        size_of::<[f32; 4]>()
    );
}

#[test]
fn test_affine_point_vector_arithmetic() {
    let p1: Point3<LocalNed, Meters, f32> = Point3::new(10.0, 20.0, -5.0);
    let p2: Point3<LocalNed, Meters, f32> = Point3::new(14.0, 16.0, -2.0);

    // Point - Point = Vector
    let disp: Vector3<LocalNed, Meters, f32> = p2 - p1;
    assert_eq!(disp, Vector3::new(4.0, -4.0, 3.0));

    // Point + Vector = Point
    let p3 = p1 + disp;
    assert_eq!(p3, p2);

    // Point - Vector = Point
    let p4 = p2 - disp;
    assert_eq!(p4, p1);

    // Distance: the norm of p1 - p2, sqrt(16 + 16 + 9) = sqrt(41)
    let dist = (p1 - p2).norm_sq().sqrt();
    let expected = (41.0f32).sqrt();
    assert!((dist - expected).abs() < 1e-5);
}

#[test]
fn test_vector_algebra() {
    let v1: Vector3<BodyFrame, Meters, f32> = Vector3::new(1.0, 2.0, 3.0);
    let v2: Vector3<BodyFrame, Meters, f32> = Vector3::new(4.0, 5.0, 6.0);

    assert_eq!(v1 + v2, Vector3::new(5.0, 7.0, 9.0));
    assert_eq!(v2 - v1, Vector3::new(3.0, 3.0, 3.0));
    assert_eq!(v1 * 2.0, Vector3::new(2.0, 4.0, 6.0));
    assert_eq!(v2 / 2.0, Vector3::new(2.0, 2.5, 3.0));
    assert_eq!(-v1, Vector3::new(-1.0, -2.0, -3.0));

    // Dot product: 1*4 + 2*5 + 3*6 = 4 + 10 + 18 = 32
    assert_eq!(v1.dot(v2), 32.0);

    // Cross product: (2*6 - 3*5, 3*4 - 1*6, 1*5 - 2*4) = (-3, 6, -3)
    assert_eq!(v1.cross(v2), Vector3::new(-3.0, 6.0, -3.0));
}

#[test]
fn test_rigid_transform_se3() {
    // Ship origin in ECEF frame
    let ship_origin_ecef: Vector3<Ecef, Meters, f32> = Vector3::new(1000.0, 2000.0, 3000.0);
    let dcm_ship_to_ecef = DirectionCosineMatrix::<MaritimeTargetFrame, Ecef, f32>::new([
        [1.0, 0.0, 0.0],
        [0.0, 1.0, 0.0],
        [0.0, 0.0, 1.0],
    ]);

    let ship_to_ecef = Transform3D::new(dcm_ship_to_ecef, ship_origin_ecef);

    let point_in_ship: Point3<MaritimeTargetFrame, Meters, f32> = Point3::new(10.0, 0.0, -2.0);
    let point_in_ecef = ship_to_ecef.transform_point(point_in_ship);

    assert_eq!(point_in_ecef, Point3::new(1010.0, 2000.0, 2998.0));

    // Inverse transform
    let ecef_to_ship = ship_to_ecef.inverse();
    let restored_ship_pt = ecef_to_ship.transform_point(point_in_ecef);
    assert!((restored_ship_pt.x - point_in_ship.x).abs() < 1e-4);
    assert!((restored_ship_pt.y - point_in_ship.y).abs() < 1e-4);
    assert!((restored_ship_pt.z - point_in_ship.z).abs() < 1e-4);
}
