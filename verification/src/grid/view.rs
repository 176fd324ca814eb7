use vstd::prelude::*;

use crate::grid::marker::{fits_i32, RawMarker};
use crate::grid::responsive::ResponsiveView;

verus! {

/// Logical index of a column (or row); groupings turn it into markers.
#[derive(Copy, Clone, PartialEq, Eq, Structural, Debug)]
pub struct GridMarker(pub i32);

impl From<i32> for GridMarker {
    fn from(value: i32) -> (r: GridMarker) {
        GridMarker(value)
    }
}

impl vstd::std_specs::convert::FromSpecImpl<i32> for GridMarker {
    open spec fn obeys_from_spec() -> bool {
        true
    }

    open spec fn from_spec(value: i32) -> GridMarker {
        GridMarker(value)
    }
}

/// Whether a location attaches to the beginning (near) or end (far) of a column.
#[derive(Copy, Clone, PartialEq, Eq, Structural, Debug)]
pub enum GridMarkerBias {
    Near,
    Far,
}

/// A marker offset added on top of a grid location.
#[derive(Copy, Clone, PartialEq, Eq, Structural, Debug)]
pub struct GridLocationOffset(pub RawMarker);

/// Pair of GridMarker and bias giving an exact column edge.
#[derive(Copy, Clone, PartialEq, Eq, Structural, Debug)]
pub struct GridLocationDescriptor {
    pub marker: GridMarker,
    pub bias: GridMarkerBias,
}

/// Description of a location on the grid: a column edge plus an optional offset.
#[derive(Copy, Clone, PartialEq, Eq, Structural, Debug)]
pub struct GridLocation {
    pub location: GridLocationDescriptor,
    pub offset: Option<GridLocationOffset>,
}

impl GridLocation {
    /// The location at the given edge of column `marker`, without offset.
    pub open spec fn spec_at(marker: GridMarker, bias: GridMarkerBias) -> GridLocation {
        GridLocation { location: GridLocationDescriptor { marker, bias }, offset: None }
    }

    /// Builds the location at the given edge of column `marker`.
    pub fn new(marker: GridMarker, bias: GridMarkerBias) -> (r: GridLocation)
        ensures
            r == GridLocation::spec_at(marker, bias),
    {
        GridLocation { location: GridLocationDescriptor { marker, bias }, offset: None }
    }

    /// The offset in markers that this location carries (0 when none).
    pub open spec fn offset_markers(self) -> int {
        match self.offset {
            Some(o) => o.0.0 as int,
            None => 0,
        }
    }

    /// Adds `offset` markers to the location's offset (creating it when absent).
    pub fn raw_offset(self, offset: RawMarker) -> (r: GridLocation)
        requires
            fits_i32(self.offset_markers() + offset.0),
        ensures
            r.location == self.location,
            r.offset is Some,
            r.offset_markers() == self.offset_markers() + offset.0,
            self.offset is None ==> r.offset == Some(GridLocationOffset(offset)),
    {
        let mut this = self;
        match this.offset {
            Some(current) => {
                this.offset = Some(GridLocationOffset(RawMarker(current.0.0 + offset.0)));
            },
            None => {
                this.offset = Some(GridLocationOffset(offset));
            },
        }
        this
    }

    /// Moves the location by `offset` columns.
    pub fn column_offset(self, offset: i32) -> (r: GridLocation)
        requires
            fits_i32(self.location.marker.0 + offset),
        ensures
            r.location.marker.0 == self.location.marker.0 + offset,
            r.location.bias == self.location.bias,
            r.offset == self.offset,
    {
        let mut this = self;
        this.location.marker = GridMarker(this.location.marker.0 + offset);
        this
    }

    /// Replaces the location's offset with `offset` markers.
    pub fn offset(self, offset: i32) -> (r: GridLocation)
        ensures
            r.location == self.location,
            r.offset == Some(GridLocationOffset(RawMarker(offset))),
    {
        let mut this = self;
        this.offset = Some(GridLocationOffset(RawMarker(offset)));
        this
    }
}

/// Beginning and end locations along one axis.
#[derive(Copy, Clone, PartialEq, Eq, Structural, Debug)]
pub struct GridRange {
    pub begin: GridLocation,
    pub end: GridLocation,
}

impl GridRange {
    pub fn new(begin: GridLocation, end: GridLocation) -> (r: GridRange)
        ensures
            r.begin == begin,
            r.end == end,
    {
        GridRange { begin, end }
    }
}

/// A range for each axis: a rectangle on the grid.
#[derive(Copy, Clone, PartialEq, Eq, Structural, Debug)]
pub struct GridView {
    pub horizontal: GridRange,
    pub vertical: GridRange,
}

impl GridView {
    /// The same view for every span.
    pub fn all_same(self) -> (r: ResponsiveView<GridView>)
        ensures
            r.mapping.four == Some(self),
            r.mapping.eight == Some(self),
            r.mapping.twelve == Some(self),
    {
        ResponsiveView::all_same(self)
    }

    pub fn new(horizontal: GridRange, vertical: GridRange) -> (r: GridView)
        ensures
            r.horizontal == horizontal,
            r.vertical == vertical,
    {
        GridView { horizontal, vertical }
    }
}

/// A point on the grid, one location per axis.
#[derive(Copy, Clone, PartialEq, Eq, Structural, Debug)]
pub struct GridPoint {
    pub x: GridLocation,
    pub y: GridLocation,
}

impl GridPoint {
    pub fn new(x: GridLocation, y: GridLocation) -> (r: GridPoint)
        ensures
            r.x == x,
            r.y == y,
    {
        GridPoint { x, y }
    }
}

} // verus!
