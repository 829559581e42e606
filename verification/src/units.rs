//! Physical-unit markers.
//!
//! Like frames, units are zero-sized types carried in the type of each quantity, so that
//! quantities in different units cannot be combined without an explicit conversion.

use vstd::prelude::*;

verus! {

/// Marker trait implemented by every physical-unit type.
pub trait Unit: 'static + Send + Sync + Copy + Eq + core::fmt::Debug {}

/// Metres (SI length).
#[derive(Debug, Clone, Copy, PartialEq, Eq, Hash, Default)]
pub struct Meters;

impl Unit for Meters {}

/// Millimetres.
#[derive(Debug, Clone, Copy, PartialEq, Eq, Hash, Default)]
pub struct Millimeters;

impl Unit for Millimeters {}

/// Kilometres.
#[derive(Debug, Clone, Copy, PartialEq, Eq, Hash, Default)]
pub struct Kilometers;

impl Unit for Kilometers {}

/// Feet.
#[derive(Debug, Clone, Copy, PartialEq, Eq, Hash, Default)]
pub struct Feet;

impl Unit for Feet {}

/// Nautical miles.
#[derive(Debug, Clone, Copy, PartialEq, Eq, Hash, Default)]
pub struct NauticalMiles;

impl Unit for NauticalMiles {}

/// Radians (SI angle).
#[derive(Debug, Clone, Copy, PartialEq, Eq, Hash, Default)]
pub struct Radians;

impl Unit for Radians {}

/// Degrees.
#[derive(Debug, Clone, Copy, PartialEq, Eq, Hash, Default)]
pub struct Degrees;

impl Unit for Degrees {}

/// Metres per second (SI velocity).
#[derive(Debug, Clone, Copy, PartialEq, Eq, Hash, Default)]
pub struct MetersPerSecond;

impl Unit for MetersPerSecond {}

/// Knots.
#[derive(Debug, Clone, Copy, PartialEq, Eq, Hash, Default)]
pub struct Knots;

impl Unit for Knots {}

} // verus!
