//! Coordinate contexts distinguishing device, interface and plain numbers.

use vstd::prelude::*;

verus! {

/// A coordinate context; positions and areas carry one to tell how to treat their values.
pub trait CoordinateContext: Send + Sync + 'static + Copy + Clone {}

/// Physical positions and sizes, as the hardware reports them.
#[derive(Copy, Clone, PartialEq, Eq, Structural, Debug, Default)]
pub struct DeviceContext;

/// Logical coordinates, after accounting for the scale factor.
#[derive(Copy, Clone, PartialEq, Eq, Structural, Debug, Default)]
pub struct InterfaceContext;

/// Numbers tied to no device or logical size.
#[derive(Copy, Clone, PartialEq, Eq, Structural, Debug, Default)]
pub struct NumericalContext;

impl CoordinateContext for DeviceContext {}

impl CoordinateContext for InterfaceContext {}

impl CoordinateContext for NumericalContext {}

/// The context bound that areas are written against; every coordinate context is one.
pub trait CoordContext: Send + Sync + 'static + Copy + Clone {}

impl CoordContext for DeviceContext {}

impl CoordContext for InterfaceContext {}

impl CoordContext for NumericalContext {}

} // verus!
