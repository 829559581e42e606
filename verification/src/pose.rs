//! Poses: a position together with an attitude.

use core::ops::{Add, Mul, Sub};
use vstd::prelude::*;
use vstd::std_specs::ops::{AddSpec, MulSpec, SubSpec};

use crate::dcm::{rotated, rotated_defined, transposed, DirectionCosineMatrix};
use crate::frames::Frame;
use crate::point::{is_default_point, translated_back, translated_back_defined, Point3};
use crate::transform::{placed, placed_defined, position_vector, Transform3D};
use crate::units::Unit;
use crate::vector::{vector_of, Vector3};

verus! {

/// A pose: the position of the origin of `From` in `To`, and the orientation rotating
/// vectors from `From` to `To`.
#[derive(Debug, PartialEq)]
pub struct Pose3D<From: Frame, To: Frame, U: Unit, T: Copy> {
    /// Position of the origin of `From`, in `To`.
    pub position: Point3<To, U, T>,
    /// Rotation from `From` to `To`.
    pub orientation: DirectionCosineMatrix<From, To, T>,
}

impl<From: Frame, To: Frame, U: Unit, T: Copy> Clone for Pose3D<From, To, U, T> {
    fn clone(&self) -> (r: Self)
        ensures
            r == *self,
    {
        *self
    }
}

impl<From: Frame, To: Frame, U: Unit, T: Copy> Copy for Pose3D<From, To, U, T> {}

impl<From: Frame, To: Frame, U: Unit, T: Copy> Pose3D<From, To, U, T> {
    /// Creates a pose from a position and an orientation.
    pub fn new(position: Point3<To, U, T>, orientation: DirectionCosineMatrix<From, To, T>) -> (r:
        Self)
        ensures
            r.position == position,
            r.orientation == orientation,
    {
        Pose3D { position, orientation }
    }

    /// The rigid transform of this pose: its orientation as the rotation and its position
    /// (as a displacement from the origin) as the translation.
    pub fn to_transform(&self) -> (r: Transform3D<From, To, U, T>)
        ensures
            r.dcm == self.orientation,
            r.translation == vector_of::<To, U, T>(self.position.x, self.position.y, self.position.z),
    {
        Transform3D::new(self.orientation, self.position.to_vector())
    }
}

impl<From: Frame, To: Frame, U: Unit, T: Copy + Add<Output = T> + Mul<Output = T>> Pose3D<
    From,
    To,
    U,
    T,
> {
    /// Transforms a point of `From` into `To` through this pose's rigid transform.
    pub fn transform_point(&self, pt: Point3<From, U, T>) -> (r: Point3<To, U, T>)
        where T: Default,
        requires
            T::obeys_add_spec(),
            T::obeys_mul_spec(),
            rotated_defined(self.orientation.m, position_vector(pt)),
            forall|o: Point3<To, U, T>|
                #[trigger] is_default_point(o) ==> placed_defined(
                    o,
                    self.orientation.m,
                    position_vector(self.position),
                    pt,
                ),
        ensures
            exists|o: Point3<To, U, T>|
                #[trigger] is_default_point(o) && r == placed(
                    o,
                    self.orientation.m,
                    position_vector(self.position),
                    pt,
                ),
    {
        self.to_transform().transform_point(pt)
    }

    /// Transforms a vector of `From` into `To` with this pose's orientation.
    pub fn transform_vector(&self, vec: Vector3<From, U, T>) -> (r: Vector3<To, U, T>)
        requires
            T::obeys_add_spec(),
            T::obeys_mul_spec(),
            rotated_defined(self.orientation.m, vec),
        ensures
            r == rotated::<From, To, U, T>(self.orientation.m, vec),
    {
        self.orientation.rotate_vector(vec)
    }
}

impl<From: Frame, To: Frame, U: Unit, T: Copy + Default + Add<Output = T> + Sub<Output = T> + Mul<
    Output = T,
>> Pose3D<From, To, U, T> {
    /// The inverse pose (`To` to `From`): the transposed orientation, and the origin minus
    /// the position rotated back.
    pub fn inverse(&self) -> (r: Pose3D<To, From, U, T>)
        requires
            T::obeys_add_spec(),
            T::obeys_sub_spec(),
            T::obeys_mul_spec(),
            rotated_defined(transposed(self.orientation.m), position_vector(self.position)),
            forall|o: Point3<From, U, T>|
                #[trigger] is_default_point(o) ==> translated_back_defined(
                    o,
                    rotated::<To, From, U, T>(
                        transposed(self.orientation.m),
                        position_vector(self.position),
                    ),
                ),
        ensures
            r.orientation.m == transposed(self.orientation.m),
            exists|o: Point3<From, U, T>|
                #[trigger] is_default_point(o) && r.position == translated_back(
                    o,
                    rotated::<To, From, U, T>(
                        transposed(self.orientation.m),
                        position_vector(self.position),
                    ),
                ),
    {
        let inv_orientation = self.orientation.transpose();
        let inv_vec = inv_orientation.rotate_vector(self.position.to_vector());
        let o = Point3::origin();
        assert(translated_back_defined(o, inv_vec));
        let inv_position = o - inv_vec;
        Pose3D::new(inv_position, inv_orientation)
    }
}

} // verus!
