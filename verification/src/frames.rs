//! Reference-frame markers.
//!
//! Every frame is a zero-sized type; values of the spatial types carry their frame only in
//! their type, so mixing two frames without an explicit rotation does not type-check.

use vstd::prelude::*;

verus! {

/// Marker trait implemented by every reference-frame type.
pub trait Frame: 'static + Send + Sync + Copy + Eq + core::fmt::Debug {}

/// Body frame (forward-right-down, attached to the vehicle).
#[derive(Debug, Clone, Copy, PartialEq, Eq, Hash, Default)]
pub struct BodyFrame;

impl Frame for BodyFrame {}

/// Local north-east-down navigation frame.
#[derive(Debug, Clone, Copy, PartialEq, Eq, Hash, Default)]
pub struct LocalNed;

impl Frame for LocalNed {}

/// Local east-north-up navigation frame.
#[derive(Debug, Clone, Copy, PartialEq, Eq, Hash, Default)]
pub struct LocalEnu;

impl Frame for LocalEnu {}

/// Earth-centred, earth-fixed global frame.
#[derive(Debug, Clone, Copy, PartialEq, Eq, Hash, Default)]
pub struct Ecef;

impl Frame for Ecef {}

/// Frame attached to a moving vessel or target platform.
#[derive(Debug, Clone, Copy, PartialEq, Eq, Hash, Default)]
pub struct MaritimeTargetFrame;

impl Frame for MaritimeTargetFrame {}

/// Camera / sensor payload frame.
#[derive(Debug, Clone, Copy, PartialEq, Eq, Hash, Default)]
pub struct CameraFrame;

impl Frame for CameraFrame {}

} // verus!
