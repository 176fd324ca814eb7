//! Slot allocation for instanced rendering.

pub mod difference;
pub mod index;
