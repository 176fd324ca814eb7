//! Handles naming loaded resources.

use vstd::prelude::*;

verus! {

/// Names a loaded resource (an image, an icon bitmap).
#[derive(Copy, Clone, PartialEq, Eq, Structural, Debug, Hash, PartialOrd, Ord)]
pub struct ResourceHandle(pub i32);

impl From<i32> for ResourceHandle {
    fn from(value: i32) -> (r: ResourceHandle) {
        ResourceHandle(value)
    }
}

impl vstd::std_specs::convert::FromSpecImpl<i32> for ResourceHandle {
    open spec fn obeys_from_spec() -> bool {
        true
    }

    open spec fn from_spec(value: i32) -> ResourceHandle {
        ResourceHandle(value)
    }
}

} // verus!
