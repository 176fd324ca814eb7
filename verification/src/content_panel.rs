//! Content panels: their line width and attachment marker.

use vstd::prelude::*;

verus! {

/// Width of a panel's outline, in pixels.
#[derive(Copy, Clone, PartialEq, Eq, Structural, Debug)]
pub struct LineWidth(pub u32);

/// Registers the content panel renderer and systems with an application.
#[derive(Copy, Clone, PartialEq, Eq, Structural, Debug, Default)]
pub struct ContentPanelAttachment {}

} // verus!
