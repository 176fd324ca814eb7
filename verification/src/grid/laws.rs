//! Properties of the grid's layout arithmetic.

use vstd::prelude::*;

use crate::grid::marker::{fits_i32, trunc_div, RawMarker};
use crate::grid::placement::shifted;
use crate::grid::responsive::ResponsiveGridView;
use crate::grid::view::{GridLocation, GridMarker, GridMarkerBias, GridView};
use crate::grid::{location_markers, Grid, HorizontalSpan};

verus! {

/// The near edge of a column other than the first lies one column width before its far
/// edge.
pub proof fn lemma_near_edge_one_column_before_far(grid: Grid, marker: i32)
    requires
        marker != 0,
    ensures
        grid.horizontal_location(GridLocation::spec_at(GridMarker(marker), GridMarkerBias::Near))
            == grid.horizontal_location(GridLocation::spec_at(GridMarker(marker), GridMarkerBias::Far))
            - grid.column_markers(),
{
}

/// Consecutive columns are separated by exactly one gutter: the near edge of column
/// `m + 1` is one gutter past the far edge of column `m`.
pub proof fn lemma_one_gutter_between_columns(grid: Grid, marker: i32)
    requires
        marker != -1,
        fits_i32(marker + 1),
    ensures
        grid.horizontal_location(
            GridLocation::spec_at(GridMarker((marker + 1) as i32), GridMarkerBias::Near),
        ) - grid.horizontal_location(GridLocation::spec_at(GridMarker(marker), GridMarkerBias::Far))
            == grid.gutter_markers(),
{
    let m = marker as int;
    let c = grid.column_markers();
    let g = grid.gutter_markers();
    assert((m + 1) * c + g * (m + 1) - c - (m * c + g * m) == g) by (nonlinear_arith);
}

/// Rows follow the same rule as columns.
pub proof fn lemma_rows_match_columns(grid: Grid, gl: GridLocation)
    ensures
        grid.vertical_location(gl) == grid.horizontal_location(gl),
{
}

/// Moving a location by `markers` moves its position on the grid by exactly `markers`,
/// along either axis.
pub proof fn lemma_offset_shifts_location(grid: Grid, gl: GridLocation, markers: RawMarker)
    requires
        fits_i32(gl.offset_markers() + markers.0),
    ensures
        grid.horizontal_location(shifted(gl, markers)) == grid.horizontal_location(gl) + markers.0,
        grid.vertical_location(shifted(gl, markers)) == grid.vertical_location(gl) + markers.0,
{
}

/// Offsets accumulate: moving by `a` then by `b` is moving by `a + b`.
pub proof fn lemma_offsets_accumulate(gl: GridLocation, a: RawMarker, b: RawMarker)
    requires
        fits_i32(gl.offset_markers() + a.0),
        fits_i32(gl.offset_markers() + a.0 + b.0),
        fits_i32(a.0 + b.0),
    ensures
        shifted(shifted(gl, a), b) == shifted(gl, RawMarker((a.0 + b.0) as i32)),
{
}

/// Rounding toward zero is monotone for a positive divisor.
proof fn lemma_trunc_div_monotone(a: int, b: int, d: int)
    requires
        a <= b,
        d > 0,
    ensures
        trunc_div(a, d) <= trunc_div(b, d),
{
    if a >= 0 {
        vstd::arithmetic::div_mod::lemma_div_is_ordered(a, b, d);
    } else if b >= 0 {
        assert((-a) / d >= 0) by (nonlinear_arith)
            requires -a > 0, d > 0;
        assert(b / d >= 0) by (nonlinear_arith)
            requires b >= 0, d > 0;
    } else {
        vstd::arithmetic::div_mod::lemma_div_is_ordered(-b, -a, d);
    }
}

/// A wider viewport never gives narrower columns: the extension grows with the width.
pub proof fn lemma_extension_monotone(span: HorizontalSpan, narrow: int, wide: int)
    requires
        narrow <= wide,
    ensures
        Grid::extension_for(span, narrow) <= Grid::extension_for(span, wide),
{
    lemma_trunc_div_monotone(
        narrow - span.extension_base_markers(),
        wide - span.extension_base_markers(),
        span.column_count(),
    );
}

/// At the width where a span's extension starts, columns have exactly their base width.
pub proof fn lemma_no_extension_at_base_width(span: HorizontalSpan)
    ensures
        Grid::extension_for(span, span.extension_base_markers()) == 0,
{
}

/// A responsive view that holds the same view for every span (as `all_same` makes it)
/// has a view for every grid's span, and its section there is the section of that view.
pub proof fn lemma_same_view_for_every_span(grid: Grid, rv: ResponsiveGridView, view: GridView)
    requires
        rv.mapping.four == Some(view),
        rv.mapping.eight == Some(view),
        rv.mapping.twelve == Some(view),
    ensures
        rv.mapping.spec_get(grid.span) == Some(view),
        grid.section_of(rv.mapping.spec_get(grid.span).unwrap()) == grid.section_of(view),
{
}

} // verus!
