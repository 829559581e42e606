# frame_sc

Compile-time reference-frame and physical-unit typestates for spatial quantities
(vectors, points, scalars, direction cosine matrices, quaternions, rigid transforms,
poses), with a verified core.

- `src/` — the verified library: frame and unit marker types; the validation error type and
  the order in which the fallible constructors report their checks; the coordinate-generic
  containers with their constructors, coordinate-wise operators, dot and cross products,
  matrix-vector rotation and matrix chaining, quaternion products, quaternion-to-matrix
  conversion and sandwich-product rotation, and rigid-transform and pose application,
  inversion and chaining. Contracts are stated against the arithmetic specification of the
  coordinate type (`linalg.rs` holds the shared sums of products). The quaternion
  functions take their constants 1 and 2 from `T::from(1i8)` and `T::from(2i8)`, so their
  contracts are exact for every coordinate type that vstd specifies that conversion for
  (the signed integers from `i16` up). Laws proved for exact integer (`i64`) coordinates:
  the affine point/vector rules; composition of matrices, of transforms and of unit
  quaternions; inverse round trips (transpose after rotation, inverse transform after
  transform, double conjugation); an orthonormal rotation keeps dot products, and a rigid
  transform maps point differences to rotated differences; chaining keeps orthonormal
  columns and multiplies determinants, so it keeps proper rotations; the matrix of a unit
  quaternion is orthonormal with determinant 1 and rotates as the quaternion does, and the
  conjugate's matrix is the transpose.
- `app/` — what needs IEEE floats (`f32`/`f64`): unit scale factors, square-root norms and
  normalization, Euler-angle constructors, finiteness and tolerance tests, WGS-84 geodesy,
  serialization and display.
- `tests/` — executable tests of the library.
