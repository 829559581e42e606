use frame_sc::error::{validate_geodetic, validate_rotation_matrix, validate_unit_quaternion};
use frame_sc::ValidationError;

#[test]
fn error_messages() {
    assert_eq!(ValidationError::NonFinite.message(), "value is not finite");
    assert_eq!(
        ValidationError::LatitudeOutOfRange.message(),
        "latitude out of range [-90, 90] degrees"
    );
    assert_eq!(
        ValidationError::LongitudeOutOfRange.message(),
        "longitude out of range [-180, 180] degrees"
    );
    assert_eq!(ValidationError::QuaternionNotUnit.message(), "quaternion is not unit norm");
    assert_eq!(ValidationError::DcmNotOrthonormal.message(), "matrix is not orthonormal");
}

#[test]
fn geodetic_checks_report_in_order() {
    assert_eq!(validate_geodetic(true, true, true), Ok(()));
    assert_eq!(validate_geodetic(false, false, false), Err(ValidationError::NonFinite));
    assert_eq!(validate_geodetic(false, true, true), Err(ValidationError::NonFinite));
    assert_eq!(validate_geodetic(true, false, false), Err(ValidationError::LatitudeOutOfRange));
    assert_eq!(validate_geodetic(true, false, true), Err(ValidationError::LatitudeOutOfRange));
    assert_eq!(validate_geodetic(true, true, false), Err(ValidationError::LongitudeOutOfRange));
}

#[test]
fn quaternion_checks_report_in_order() {
    assert_eq!(validate_unit_quaternion(true, true), Ok(()));
    assert_eq!(validate_unit_quaternion(false, false), Err(ValidationError::NonFinite));
    assert_eq!(validate_unit_quaternion(true, false), Err(ValidationError::QuaternionNotUnit));
}

#[test]
fn rotation_matrix_checks_report_in_order() {
    assert_eq!(validate_rotation_matrix(true, true), Ok(()));
    assert_eq!(validate_rotation_matrix(false, true), Err(ValidationError::NonFinite));
    assert_eq!(validate_rotation_matrix(true, false), Err(ValidationError::DcmNotOrthonormal));
}
