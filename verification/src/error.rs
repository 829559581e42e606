//! Validation errors of the fallible constructors, and the order in which the checks of
//! each constructor are reported.

use vstd::prelude::*;

verus! {

/// Error returned by fallible constructors when an input fails validation.
#[derive(Debug, Clone, Copy, PartialEq, Eq, Structural)]
#[non_exhaustive]
pub enum ValidationError {
    /// One or more components were not finite (NaN or infinity).
    NonFinite,
    /// WGS-84 latitude is outside the valid range `[-90, 90]` degrees.
    LatitudeOutOfRange,
    /// WGS-84 longitude is outside the valid range `[-180, 180]` degrees.
    LongitudeOutOfRange,
    /// A quaternion does not have unit norm.
    QuaternionNotUnit,
    /// A direction cosine matrix is not orthonormal.
    DcmNotOrthonormal,
}

/// The human-readable text of each error.
pub open spec fn error_text(e: ValidationError) -> Seq<char> {
    match e {
        ValidationError::NonFinite => "value is not finite"@,
        ValidationError::LatitudeOutOfRange => "latitude out of range [-90, 90] degrees"@,
        ValidationError::LongitudeOutOfRange => "longitude out of range [-180, 180] degrees"@,
        ValidationError::QuaternionNotUnit => "quaternion is not unit norm"@,
        ValidationError::DcmNotOrthonormal => "matrix is not orthonormal"@,
    }
}

impl ValidationError {
    /// The message shown for this error (what `Display` writes).
    pub fn message(&self) -> (r: &'static str)
        ensures
            r@ == error_text(*self),
    {
        match self {
            ValidationError::NonFinite => "value is not finite",
            ValidationError::LatitudeOutOfRange => "latitude out of range [-90, 90] degrees",
            ValidationError::LongitudeOutOfRange => "longitude out of range [-180, 180] degrees",
            ValidationError::QuaternionNotUnit => "quaternion is not unit norm",
            ValidationError::DcmNotOrthonormal => "matrix is not orthonormal",
        }
    }
}

/// Verdict of a geodetic position check: finiteness is checked first, then the latitude,
/// then the longitude.
pub open spec fn geodetic_verdict(
    all_finite: bool,
    latitude_in_range: bool,
    longitude_in_range: bool,
) -> Result<(), ValidationError> {
    if !all_finite {
        Err(ValidationError::NonFinite)
    } else if !latitude_in_range {
        Err(ValidationError::LatitudeOutOfRange)
    } else if !longitude_in_range {
        Err(ValidationError::LongitudeOutOfRange)
    } else {
        Ok(())
    }
}

/// Decides the outcome of validating a geodetic position from the three facts that the
/// position's constructor measures.
pub fn validate_geodetic(
    all_finite: bool,
    latitude_in_range: bool,
    longitude_in_range: bool,
) -> (r: Result<(), ValidationError>)
    ensures
        r == geodetic_verdict(all_finite, latitude_in_range, longitude_in_range),
        r is Ok <==> (all_finite && latitude_in_range && longitude_in_range),
{
    if !all_finite {
        Err(ValidationError::NonFinite)
    } else if !latitude_in_range {
        Err(ValidationError::LatitudeOutOfRange)
    } else if !longitude_in_range {
        Err(ValidationError::LongitudeOutOfRange)
    } else {
        Ok(())
    }
}

/// Decides the outcome of validating a unit quaternion: non-finite components are reported
/// before a wrong norm.
pub fn validate_unit_quaternion(all_finite: bool, unit_norm: bool) -> (r: Result<
    (),
    ValidationError,
>)
    ensures
        !all_finite ==> r == Err::<(), ValidationError>(ValidationError::NonFinite),
        all_finite && !unit_norm ==> r == Err::<(), ValidationError>(
            ValidationError::QuaternionNotUnit,
        ),
        all_finite && unit_norm ==> r == Ok::<(), ValidationError>(()),
{
    if !all_finite {
        Err(ValidationError::NonFinite)
    } else if !unit_norm {
        Err(ValidationError::QuaternionNotUnit)
    } else {
        Ok(())
    }
}

/// Decides the outcome of validating a rotation matrix: non-finite entries are reported
/// before a failed orthonormality test.
pub fn validate_rotation_matrix(all_finite: bool, orthonormal: bool) -> (r: Result<
    (),
    ValidationError,
>)
    ensures
        !all_finite ==> r == Err::<(), ValidationError>(ValidationError::NonFinite),
        all_finite && !orthonormal ==> r == Err::<(), ValidationError>(
            ValidationError::DcmNotOrthonormal,
        ),
        all_finite && orthonormal ==> r == Ok::<(), ValidationError>(()),
{
    if !all_finite {
        Err(ValidationError::NonFinite)
    } else if !orthonormal {
        Err(ValidationError::DcmNotOrthonormal)
    } else {
        Ok(())
    }
}

} // verus!
