//! The responsive layout grid: markers, columns, gutters and views.

pub mod laws;
pub mod marker;
pub mod placement;
pub mod responsive;
pub mod view;

use vstd::prelude::*;

pub use marker::{
    fits_i32, trunc_div, ColumnConfig, GutterConfig, RawMarker, RawMarkerGrouping, RowConfig,
};
pub use placement::{Placement, Placer, ReferencePoint, ReferenceView};
pub use responsive::{
    ResponsiveGridPoint, ResponsiveGridView, ResponsiveUnit, ResponsiveView, SpanMapping,
};
pub use view::{
    GridLocation, GridLocationDescriptor, GridLocationOffset, GridMarker, GridMarkerBias,
    GridPoint, GridRange, GridView,
};

verus! {

/// Number of columns available in the grid.
#[derive(Copy, Clone, PartialEq, Eq, Structural, Debug, Hash, PartialOrd, Ord)]
pub enum HorizontalSpan {
    Four,
    Eight,
    Twelve,
}

impl HorizontalSpan {
    /// Markers per gutter for this span.
    pub open spec fn gutter_markers(self) -> int {
        match self {
            HorizontalSpan::Four => 4,
            HorizontalSpan::Eight => 4,
            HorizontalSpan::Twelve => 6,
        }
    }

    /// Base markers per column (before the width-dependent extension) for this span.
    pub open spec fn content_markers(self) -> int {
        match self {
            HorizontalSpan::Four => 20,
            HorizontalSpan::Eight => 18,
            HorizontalSpan::Twelve => 20,
        }
    }

    /// Number of columns of this span.
    pub open spec fn column_count(self) -> int {
        match self {
            HorizontalSpan::Four => 4,
            HorizontalSpan::Eight => 8,
            HorizontalSpan::Twelve => 12,
        }
    }

    /// The viewport width, in markers, from which the extension of this span is measured
    /// (400px, 720px and 1168px at four pixels per marker).
    pub open spec fn extension_base_markers(self) -> int {
        match self {
            HorizontalSpan::Four => 100,
            HorizontalSpan::Eight => 180,
            HorizontalSpan::Twelve => 292,
        }
    }

    pub fn gutter_base(&self) -> (r: RawMarkerGrouping)
        ensures
            r.0 == self.gutter_markers(),
    {
        match self {
            HorizontalSpan::Four => RawMarkerGrouping(4),
            HorizontalSpan::Eight => RawMarkerGrouping(4),
            HorizontalSpan::Twelve => RawMarkerGrouping(6),
        }
    }

    pub fn content_base(&self) -> (r: RawMarkerGrouping)
        ensures
            r.0 == self.content_markers(),
    {
        match self {
            HorizontalSpan::Four => RawMarkerGrouping(20),
            HorizontalSpan::Eight => RawMarkerGrouping(18),
            HorizontalSpan::Twelve => RawMarkerGrouping(20),
        }
    }

    pub fn columns(&self) -> (r: i32)
        ensures
            r == self.column_count(),
    {
        match self {
            HorizontalSpan::Four => Grid::SPAN_FOUR_COLUMNS,
            HorizontalSpan::Eight => Grid::SPAN_EIGHT_COLUMNS,
            HorizontalSpan::Twelve => Grid::SPAN_TWELVE_COLUMNS,
        }
    }

    pub fn extension_base(&self) -> (r: i32)
        ensures
            r == self.extension_base_markers(),
    {
        match self {
            HorizontalSpan::Four => Grid::SPAN_FOUR_EXT_BASE_MARKERS,
            HorizontalSpan::Eight => Grid::SPAN_EIGHT_EXT_BASE_MARKERS,
            HorizontalSpan::Twelve => Grid::SPAN_TWELVE_EXT_BASE_MARKERS,
        }
    }
}

/// The four marker edges of a section: what the grid computes before pixel conversion.
#[derive(Copy, Clone, PartialEq, Eq, Structural, Debug)]
pub struct MarkerSection {
    pub left: RawMarker,
    pub top: RawMarker,
    pub right: RawMarker,
    pub bottom: RawMarker,
}

/// Location (in markers) of a grid location, for units of `per_unit` markers
/// separated by gutters of `gutter` markers.
pub open spec fn location_markers(per_unit: int, gutter: int, gl: GridLocation) -> int {
    let m = gl.location.marker.0 as int;
    let edge = m * per_unit + gutter * m;
    let biased = if gl.location.bias == GridMarkerBias::Near && m != 0 {
        edge - per_unit
    } else {
        edge
    };
    biased + gl.offset_markers()
}

/// Whether every intermediate value of `location_markers` fits in an `i32`.
pub open spec fn location_fits(per_unit: int, gutter: int, gl: GridLocation) -> bool {
    let m = gl.location.marker.0 as int;
    let edge = m * per_unit + gutter * m;
    let biased = if gl.location.bias == GridMarkerBias::Near && m != 0 {
        edge - per_unit
    } else {
        edge
    };
    &&& fits_i32(m * per_unit)
    &&& fits_i32(gutter * m)
    &&& fits_i32(edge)
    &&& fits_i32(biased)
    &&& fits_i32(biased + gl.offset_markers())
}

/// Grid configuration: span and column, row and gutter groupings.
#[derive(Copy, Clone, PartialEq, Eq, Structural, Debug)]
pub struct Grid {
    pub span: HorizontalSpan,
    pub column_config: ColumnConfig,
    pub row_config: RowConfig,
    pub gutter_config: GutterConfig,
    pub vertical_markers: i32,
    pub horizontal_markers: i32,
}

impl Grid {
    pub const SPAN_FOUR_EXT_BASE_MARKERS: i32 = 100;
    pub const SPAN_EIGHT_EXT_BASE_MARKERS: i32 = 180;
    pub const SPAN_TWELVE_EXT_BASE_MARKERS: i32 = 292;
    pub const SPAN_TWELVE_COLUMNS: i32 = 12;
    pub const SPAN_EIGHT_COLUMNS: i32 = 8;
    pub const SPAN_FOUR_COLUMNS: i32 = 4;

    /// Markers per column: base plus the width-dependent extension.
    pub open spec fn column_markers(self) -> int {
        self.column_config.base.0 + self.column_config.extension.0
    }

    /// Markers per gutter.
    pub open spec fn gutter_markers(self) -> int {
        self.gutter_config.base.0 as int
    }

    /// Horizontal location, in markers, of `gl`.
    pub open spec fn horizontal_location(self, gl: GridLocation) -> int {
        location_markers(self.column_markers(), self.gutter_markers(), gl)
    }

    /// Vertical location, in markers, of `gl` (rows are as tall as columns are wide).
    pub open spec fn vertical_location(self, gl: GridLocation) -> int {
        location_markers(self.column_markers(), self.gutter_markers(), gl)
    }

    /// Whether the horizontal location of `gl` can be computed without overflow.
    pub open spec fn horizontal_fits(self, gl: GridLocation) -> bool {
        fits_i32(self.column_markers()) && location_fits(
            self.column_markers(),
            self.gutter_markers(),
            gl,
        )
    }

    /// Whether the vertical location of `gl` can be computed without overflow.
    pub open spec fn vertical_fits(self, gl: GridLocation) -> bool {
        fits_i32(self.column_markers()) && location_fits(
            self.column_markers(),
            self.gutter_markers(),
            gl,
        )
    }

    /// Extension markers per column for a viewport `horizontal_markers` wide.
    pub open spec fn extension_for(span: HorizontalSpan, horizontal_markers: int) -> int {
        trunc_div(horizontal_markers - span.extension_base_markers(), span.column_count())
    }

    /// The grid of a viewport `horizontal_markers` wide and `vertical_markers` tall
    /// (each the viewport size in pixels divided by four, rounded down), using `span`,
    /// the span that the viewport width selects.
    pub fn new(span: HorizontalSpan, horizontal_markers: i32, vertical_markers: i32) -> (r: Grid)
        ensures
            r.span == span,
            r.column_config.base.0 == span.content_markers(),
            r.column_config.extension.0 == Grid::extension_for(span, horizontal_markers as int),
            r.row_config.base.0 == span.content_markers(),
            r.gutter_config.base.0 == span.gutter_markers(),
            r.horizontal_markers == horizontal_markers,
            r.vertical_markers == vertical_markers,
    {
        proof {
            let w = horizontal_markers - span.extension_base_markers();
            let c = span.column_count();
            if w >= 0 {
                assert(0 <= w / c <= w / 2) by (nonlinear_arith)
                    requires w >= 0, c >= 2;
            } else {
                assert(0 <= (-w) / c <= (-w) / 2) by (nonlinear_arith)
                    requires -w >= 0, c >= 2;
            }
        }
        let extension = Self::calc_extension(horizontal_markers, span.extension_base(), span.columns());
        Grid {
            span,
            column_config: ColumnConfig {
                base: span.content_base(),
                extension: RawMarkerGrouping(extension),
            },
            row_config: RowConfig { base: span.content_base() },
            gutter_config: GutterConfig { base: span.gutter_base() },
            vertical_markers,
            horizontal_markers,
        }
    }

    /// Extra markers per column once the viewport is wider than `base_markers`,
    /// shared between `columns` columns (rounded toward zero).
    pub fn calc_extension(horizontal_markers: i32, base_markers: i32, columns: i32) -> (r: i32)
        requires
            columns != 0,
            fits_i32(trunc_div(horizontal_markers - base_markers, columns as int)),
        ensures
            r == trunc_div(horizontal_markers - base_markers, columns as int),
    {
        let width: i64 = horizontal_markers as i64 - base_markers as i64;
        let cols: i64 = columns as i64;
        let mag_w: i64 = if width >= 0 { width } else { -width };
        let mag_c: i64 = if cols >= 0 { cols } else { -cols };
        let mag_q: i64 = mag_w / mag_c;
        proof {
            let w = width as int;
            let c = cols as int;
            assert(0 <= mag_q <= mag_w) by (nonlinear_arith)
                requires mag_w >= 0, mag_c >= 1, mag_q == mag_w / mag_c;
            if w >= 0 && c < 0 {
                marker::lemma_div_neg_divisor(w, -c);
            } else if w < 0 && c < 0 {
                marker::lemma_div_neg_divisor(-w, -c);
            }
        }
        let q: i64 = if (width >= 0) == (cols > 0) {
            mag_q
        } else {
            -mag_q
        };
        proof {
            let w = width as int;
            let c = cols as int;
            if w == 0 {
                assert(mag_q == 0);
            }
            assert(q == trunc_div(w, c));
        }
        q as i32
    }

    /// Markers per column: the span's base plus the extension.
    pub fn markers_per_column(&self) -> (r: i32)
        requires
            fits_i32(self.column_markers()),
        ensures
            r == self.column_markers(),
    {
        self.column_config.base.0 + self.column_config.extension.0
    }

    /// Markers per row (the same as per column).
    pub fn markers_per_row(&self) -> (r: i32)
        requires
            fits_i32(self.column_markers()),
        ensures
            r == self.column_markers(),
    {
        self.markers_per_column()
    }

    /// Markers per gutter.
    pub fn markers_per_gutter(&self) -> (r: i32)
        ensures
            r == self.gutter_markers(),
    {
        self.gutter_config.base.0
    }

    /// The span of this grid.
    pub fn span(&self) -> (r: HorizontalSpan)
        ensures
            r == self.span,
    {
        self.span
    }

    /// Width of the viewport in markers.
    pub fn horizontal_markers(&self) -> (r: i32)
        ensures
            r == self.horizontal_markers,
    {
        self.horizontal_markers
    }

    /// Height of the viewport in markers.
    pub fn vertical_markers(&self) -> (r: i32)
        ensures
            r == self.vertical_markers,
    {
        self.vertical_markers
    }

    /// Marker position along the horizontal axis of `grid_location`.
    pub fn calc_horizontal_location(&self, grid_location: GridLocation) -> (r: RawMarker)
        requires
            self.horizontal_fits(grid_location),
        ensures
            r.0 == self.horizontal_location(grid_location),
    {
        let markers_per_column = self.markers_per_column();
        calc_location(markers_per_column, self.gutter_config.base.0, grid_location)
    }

    /// Marker position along the vertical axis of `grid_location`.
    pub fn calc_vertical_location(&self, grid_location: GridLocation) -> (r: RawMarker)
        requires
            self.vertical_fits(grid_location),
        ensures
            r.0 == self.vertical_location(grid_location),
    {
        let markers_per_row = self.markers_per_row();
        calc_location(markers_per_row, self.gutter_config.base.0, grid_location)
    }

    /// Markers between the horizontal begin and end of `view`.
    pub fn view_horizontal_markers(&self, view: &GridView) -> (r: RawMarker)
        requires
            self.horizontal_fits(view.horizontal.begin),
            self.horizontal_fits(view.horizontal.end),
            fits_i32(
                self.horizontal_location(view.horizontal.end) - self.horizontal_location(
                    view.horizontal.begin,
                ),
            ),
        ensures
            r.0 == self.horizontal_location(view.horizontal.end) - self.horizontal_location(
                view.horizontal.begin,
            ),
    {
        let end = self.calc_horizontal_location(view.horizontal.end);
        let begin = self.calc_horizontal_location(view.horizontal.begin);
        end.sub(begin)
    }

    /// Markers between the vertical begin and end of `view`.
    pub fn view_vertical_markers(&self, view: &GridView) -> (r: RawMarker)
        requires
            self.vertical_fits(view.vertical.begin),
            self.vertical_fits(view.vertical.end),
            fits_i32(
                self.vertical_location(view.vertical.end) - self.vertical_location(
                    view.vertical.begin,
                ),
            ),
        ensures
            r.0 == self.vertical_location(view.vertical.end) - self.vertical_location(
                view.vertical.begin,
            ),
    {
        let end = self.calc_vertical_location(view.vertical.end);
        let begin = self.calc_vertical_location(view.vertical.begin);
        end.sub(begin)
    }

    /// Marker distance from `second` to `first` along each axis.
    pub fn distance(&self, first: GridPoint, second: GridPoint) -> (r: (RawMarker, RawMarker))
        requires
            self.horizontal_fits(first.x),
            self.horizontal_fits(second.x),
            self.vertical_fits(first.y),
            self.vertical_fits(second.y),
            fits_i32(self.horizontal_location(first.x) - self.horizontal_location(second.x)),
            fits_i32(self.vertical_location(first.y) - self.vertical_location(second.y)),
        ensures
            r.0.0 == self.horizontal_location(first.x) - self.horizontal_location(second.x),
            r.1.0 == self.vertical_location(first.y) - self.vertical_location(second.y),
    {
        let fx = self.calc_horizontal_location(first.x);
        let fy = self.calc_vertical_location(first.y);
        let sx = self.calc_horizontal_location(second.x);
        let sy = self.calc_vertical_location(second.y);
        (fx.sub(sx), fy.sub(sy))
    }

    /// The last row that fits entirely in the viewport's height.
    pub fn last_full_row(&self) -> (r: GridMarker)
        requires
            fits_i32(self.column_markers()),
            fits_i32(self.column_markers() + self.gutter_markers()),
            self.column_markers() + self.gutter_markers() != 0,
            !(self.vertical_markers == i32::MIN && self.column_markers() + self.gutter_markers()
                == -1),
        ensures
            r.0 == trunc_div(
                self.vertical_markers as int,
                self.column_markers() + self.gutter_markers(),
            ),
    {
        let per_row = self.markers_per_row() + self.markers_per_gutter();
        GridMarker(marker::trunc_div_i32(self.vertical_markers(), per_row))
    }

    /// Whether every edge of `view` can be computed without overflow.
    pub open spec fn view_fits(self, view: GridView) -> bool {
        &&& self.horizontal_fits(view.horizontal.begin)
        &&& self.horizontal_fits(view.horizontal.end)
        &&& self.vertical_fits(view.vertical.begin)
        &&& self.vertical_fits(view.vertical.end)
    }

    /// The marker edges of `view`: left/right from the horizontal range, top/bottom from
    /// the vertical one.
    pub open spec fn section_of(self, view: GridView) -> MarkerSection {
        MarkerSection {
            left: RawMarker(self.horizontal_location(view.horizontal.begin) as i32),
            top: RawMarker(self.vertical_location(view.vertical.begin) as i32),
            right: RawMarker(self.horizontal_location(view.horizontal.end) as i32),
            bottom: RawMarker(self.vertical_location(view.vertical.end) as i32),
        }
    }

    /// The marker section that `current_view` covers (pixel edges are these times four).
    pub fn calc_section(&self, current_view: &GridView) -> (r: MarkerSection)
        requires
            self.view_fits(*current_view),
        ensures
            r == self.section_of(*current_view),
            r.left.0 == self.horizontal_location(current_view.horizontal.begin),
            r.top.0 == self.vertical_location(current_view.vertical.begin),
            r.right.0 == self.horizontal_location(current_view.horizontal.end),
            r.bottom.0 == self.vertical_location(current_view.vertical.end),
    {
        let left = self.calc_horizontal_location(current_view.horizontal.begin);
        let top = self.calc_vertical_location(current_view.vertical.begin);
        let right = self.calc_horizontal_location(current_view.horizontal.end);
        let bottom = self.calc_vertical_location(current_view.vertical.end);
        MarkerSection { left, top, right, bottom }
    }

    /// The marker section of the view that `view` holds for this grid's span.
    pub fn calc_section_from_responsive(&self, view: &ResponsiveGridView) -> (r: MarkerSection)
        requires
            view.mapping.spec_get(self.span) is Some,
            self.view_fits(view.mapping.spec_get(self.span).unwrap()),
        ensures
            r == self.section_of(view.mapping.spec_get(self.span).unwrap()),
    {
        let current_view = view.mapping.get(&self.span).unwrap();
        self.calc_section(current_view)
    }

    /// The marker position of the point that `view` holds for this grid's span; both
    /// coordinates are placed with the column rule (rows follow the same rule).
    pub fn calc_point_from_responsive(&self, view: &ResponsiveGridPoint) -> (r: (RawMarker, RawMarker))
        requires
            view.mapping.spec_get(self.span) is Some,
            self.horizontal_fits(view.mapping.spec_get(self.span).unwrap().x),
            self.horizontal_fits(view.mapping.spec_get(self.span).unwrap().y),
        ensures
            r.0.0 == self.horizontal_location(view.mapping.spec_get(self.span).unwrap().x),
            r.1.0 == self.horizontal_location(view.mapping.spec_get(self.span).unwrap().y),
    {
        let point = view.mapping.get(&self.span).unwrap();
        let x = self.calc_horizontal_location(point.x);
        let y = self.calc_horizontal_location(point.y);
        (x, y)
    }
}

/// Location in markers of `grid_location` for units of `per_unit` markers and gutters of
/// `gutter` markers: the far edge of unit `m` is `m * (per_unit + gutter)`, the near edge
/// of a unit other than the first is one unit before it, and the offset is added last.
fn calc_location(per_unit: i32, gutter: i32, grid_location: GridLocation) -> (r: RawMarker)
    requires
        location_fits(per_unit as int, gutter as int, grid_location),
    ensures
        r.0 == location_markers(per_unit as int, gutter as int, grid_location),
{
    let content_location = grid_location.location;
    let m = content_location.marker.0;
    let location = m * per_unit + gutter * m;
    let location = if content_location.bias == GridMarkerBias::Near && m != 0 {
        location - per_unit
    } else {
        location
    };
    let location = match grid_location.offset {
        Some(offset) => location + offset.0.0,
        None => location,
    };
    RawMarker(location)
}

} // verus!
