use workflow_visualizer::grid::{
    Grid, GridLocation, GridMarker, GridMarkerBias, GridPoint, GridRange, GridView,
    HorizontalSpan, RawMarker, ResponsiveUnit, ResponsiveView,
};

fn location(marker: i32, bias: GridMarkerBias) -> GridLocation {
    GridLocation::new(GridMarker(marker), bias)
}

#[test]
fn span_groupings() {
    assert_eq!(HorizontalSpan::Four.gutter_base().0, 4);
    assert_eq!(HorizontalSpan::Eight.gutter_base().0, 4);
    assert_eq!(HorizontalSpan::Twelve.gutter_base().0, 6);
    assert_eq!(HorizontalSpan::Four.content_base().0, 20);
    assert_eq!(HorizontalSpan::Eight.content_base().0, 18);
    assert_eq!(HorizontalSpan::Twelve.content_base().0, 20);
}

#[test]
fn grid_extension_four_span() {
    // 400px wide viewport: 100 markers, no extension.
    let grid = Grid::new(HorizontalSpan::Four, 100, 200);
    assert_eq!(grid.markers_per_column(), 20);
    assert_eq!(grid.markers_per_gutter(), 4);
    // 500px: 125 markers, (125 - 100) / 4 = 6 extra markers per column.
    let grid = Grid::new(HorizontalSpan::Four, 125, 200);
    assert_eq!(grid.markers_per_column(), 26);
    assert_eq!(grid.markers_per_row(), 26);
    assert_eq!(grid.horizontal_markers(), 125);
    assert_eq!(grid.vertical_markers(), 200);
}

#[test]
fn grid_extension_rounds_toward_zero() {
    // 300px: 75 markers, (75 - 100) / 4 = -6 (not -7).
    let grid = Grid::new(HorizontalSpan::Four, 75, 100);
    assert_eq!(grid.markers_per_column(), 14);
    // twelve span at 1600px: 400 markers, (400 - 292) / 12 = 9.
    let grid = Grid::new(HorizontalSpan::Twelve, 400, 100);
    assert_eq!(grid.markers_per_column(), 29);
    assert_eq!(grid.span(), HorizontalSpan::Twelve);
}

#[test]
fn horizontal_locations() {
    let grid = Grid::new(HorizontalSpan::Four, 100, 200);
    // far edge of column 1: 1 * 20 + 4 * 1 = 24, near edge one column before: 4.
    assert_eq!(grid.calc_horizontal_location(1.far()).0, 24);
    assert_eq!(grid.calc_horizontal_location(1.near()).0, 4);
    // column 0 has no near shift.
    assert_eq!(grid.calc_horizontal_location(0.near()).0, 0);
    assert_eq!(grid.calc_horizontal_location(2.near()).0, 28);
    let with_offset = 2.near().raw_offset(RawMarker(3));
    assert_eq!(grid.calc_horizontal_location(with_offset).0, 31);
    assert_eq!(grid.calc_vertical_location(3.far()).0, 72);
}

#[test]
fn sections_and_distances() {
    let grid = Grid::new(HorizontalSpan::Four, 100, 200);
    let view = GridView::new(
        GridRange::new(1.near(), 2.far()),
        GridRange::new(1.near(), 1.far()),
    );
    let section = grid.calc_section(&view);
    assert_eq!(section.left.0, 4);
    assert_eq!(section.right.0, 48);
    assert_eq!(section.top.0, 4);
    assert_eq!(section.bottom.0, 24);
    assert_eq!(grid.view_horizontal_markers(&view).0, 44);
    assert_eq!(grid.view_vertical_markers(&view).0, 20);
    let first = GridPoint::new(2.far(), 1.far());
    let second = GridPoint::new(1.near(), location(1, GridMarkerBias::Near));
    let (dx, dy) = grid.distance(first, second);
    assert_eq!(dx.0, 44);
    assert_eq!(dy.0, 20);
    // 200 markers / (20 + 4) = 8 full rows.
    assert_eq!(grid.last_full_row().0, 8);
}

#[test]
fn responsive_views() {
    let grid = Grid::new(HorizontalSpan::Eight, 200, 200);
    let narrow = GridView::new(GridRange::new(1.near(), 1.far()), GridRange::new(1.near(), 1.far()));
    let wide = GridView::new(GridRange::new(1.near(), 2.far()), GridRange::new(1.near(), 1.far()));
    let view = ResponsiveView::explicit(narrow, wide, wide);
    let section = grid.calc_section_from_responsive(&view);
    assert_eq!(section, grid.calc_section(&wide));
    assert!(*view.get_span(&HorizontalSpan::Four) == narrow);
    let same = narrow.all_same().with_span_eight(wide);
    assert!(*same.get_span(&HorizontalSpan::Eight) == wide);
    assert!(*same.get_span(&HorizontalSpan::Twelve) == narrow);
}

#[test]
fn location_offsets() {
    let loc = 3.far().raw_offset(RawMarker(2)).raw_offset(RawMarker(-5));
    assert_eq!(loc.offset.unwrap().0 .0, -3);
    let moved = loc.column_offset(2);
    assert_eq!(moved.location.marker.0, 5);
    let replaced = moved.offset(7);
    assert_eq!(replaced.offset.unwrap().0 .0, 7);
    assert_eq!(GridMarker(4).near().location.bias, GridMarkerBias::Near);
}

#[test]
fn raw_marker_arithmetic() {
    assert_eq!(RawMarker(7).add(RawMarker(5)).0, 12);
    assert_eq!(RawMarker(7).sub(RawMarker(5)).0, 2);
    assert_eq!(RawMarker(7).mul(RawMarker(5)).0, 35);
    assert_eq!(RawMarker(-7).div(RawMarker(2)).0, -3);
    assert_eq!(RawMarker(7).div(RawMarker(-2)).0, -3);
    assert_eq!(RawMarker(-7).div(RawMarker(-2)).0, 3);
    assert_eq!(RawMarker(7).neg().0, -7);
    assert_eq!(RawMarker::from(9).0, 9);
}

#[test]
fn one_gutter_between_consecutive_columns() {
    for (span, markers) in [(HorizontalSpan::Four, 130), (HorizontalSpan::Eight, 200), (HorizontalSpan::Twelve, 400)] {
        let grid = Grid::new(span, markers, 300);
        for m in 0..5 {
            let far = grid.calc_horizontal_location(m.far()).0;
            let next_near = grid.calc_horizontal_location((m + 1).near()).0;
            assert_eq!(next_near - far, grid.markers_per_gutter());
            if m != 0 {
                let near = grid.calc_horizontal_location(m.near()).0;
                assert_eq!(far - near, grid.markers_per_column());
            }
        }
    }
}

#[test]
fn wider_viewports_never_narrow_columns() {
    let mut previous = i32::MIN;
    for markers in 0..400 {
        let per_column = Grid::new(HorizontalSpan::Eight, markers, 10).markers_per_column();
        assert!(per_column >= previous);
        previous = per_column;
    }
    assert_eq!(Grid::new(HorizontalSpan::Eight, 180, 10).markers_per_column(), 18);
}

#[test]
fn responsive_points_use_the_column_rule() {
    let grid = Grid::new(HorizontalSpan::Four, 100, 100);
    let point = GridPoint::new(2.far(), 1.near());
    let view = ResponsiveView::all_same(point);
    let (x, y) = grid.calc_point_from_responsive(&view);
    assert_eq!(x.0, 48);
    assert_eq!(y.0, 4);
}

#[test]
fn extension_for_any_nonzero_column_count() {
    assert_eq!(Grid::calc_extension(10, 0, -3), -3);
    assert_eq!(Grid::calc_extension(-10, 0, 3), -3);
    assert_eq!(Grid::calc_extension(-10, 0, -3), 3);
    assert_eq!(Grid::calc_extension(7, 1, 1), 6);
}
