//! Compile-time reference-frame and physical-unit typestates for spatial quantities.
//!
//! Frames (`BodyFrame`, `LocalNed`, `Ecef`, ...) and units (`Meters`, `Knots`, ...) are
//! zero-sized marker types carried in the type of every vector, point, scalar, rotation and
//! transform, so that quantities of different frames or units cannot be mixed without an
//! explicit rotation or conversion, and so that affine rules hold by construction
//! (point - point = vector, point + vector = point, no point + point).
//!
//! The containers are generic in their coordinate type; their structural operations and
//! coordinate-wise operators are verified against the arithmetic specification of that
//! coordinate type.

pub mod dcm;
pub mod error;
pub mod frames;
pub mod linalg;
pub mod point;
pub mod pose;
pub mod quaternion;
pub mod scalar;
pub mod transform;
pub mod units;
pub mod vector;

pub use dcm::DirectionCosineMatrix;
pub use error::ValidationError;
pub use frames::{BodyFrame, CameraFrame, Ecef, Frame, LocalEnu, LocalNed, MaritimeTargetFrame};
pub use point::Point3;
pub use pose::Pose3D;
pub use quaternion::Quaternion;
pub use scalar::Scalar;
pub use transform::Transform3D;
pub use units::{
    Degrees, Feet, Kilometers, Knots, Meters, MetersPerSecond, Millimeters, NauticalMiles,
    Radians, Unit,
};
pub use vector::Vector3;
