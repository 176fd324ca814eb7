use workflow_visualizer::grid::{
    GridMarker, GridMarkerBias, GridLocation, GridPoint, Placement, Placer, RawMarker,
    ReferencePoint, ReferenceView, ResponsiveUnit,
};

#[derive(PartialEq, Eq, Hash, Clone, Copy, Debug)]
enum Key {
    Title,
    Body,
}

#[test]
fn placer_places_relative_to_anchor() {
    let anchor = GridPoint::new(1.near(), 2.near());
    let mut placer: Placer<u32> = Placer::new(anchor);
    placer.add(1, RawMarker(4));
    assert_eq!(placer.get(1), RawMarker(4));
    let view = placer.view(RawMarker(1), RawMarker(5), RawMarker(2), RawMarker(6));
    assert_eq!(view.horizontal.begin.offset.unwrap().0, RawMarker(1));
    assert_eq!(view.horizontal.end.offset.unwrap().0, RawMarker(5));
    assert_eq!(view.vertical.begin.offset.unwrap().0, RawMarker(2));
    assert_eq!(view.vertical.end.location.marker, GridMarker(2));
    placer.add_reference_view(
        2,
        ReferenceView::new()
            .with_left(RawMarker(0))
            .with_right(RawMarker(10))
            .with_top(RawMarker(1))
            .with_bottom(RawMarker(3)),
    );
    let reference = placer.reference_view(2);
    assert_eq!(reference.right(), RawMarker(10));
    let from_reference = placer.view_from_reference(2);
    assert_eq!(from_reference.horizontal.end.offset.unwrap().0, RawMarker(10));
    assert_eq!(from_reference.vertical.end.offset.unwrap().0, RawMarker(3));
    placer.add_point(3, RawMarker(7), RawMarker(8));
    assert_eq!(placer.get_reference_point(3).x(), RawMarker(7));
    let point = placer.point_from_reference(3);
    assert_eq!(point.y.offset.unwrap().0, RawMarker(8));
    let p = placer.point(RawMarker(-1), RawMarker(0));
    assert_eq!(p.x.offset.unwrap().0, RawMarker(-1));
}

#[test]
fn placement_stores_views_and_points() {
    let mut placement: Placement<u64> = Placement::new();
    let point = GridPoint::new(GridLocation::new(GridMarker(1), GridMarkerBias::Far), 2.far());
    placement.add_point(5, point);
    assert!(placement.get_point(5) == point);
    let view = workflow_visualizer::grid::GridView::new(
        workflow_visualizer::grid::GridRange::new(1.near(), 1.far()),
        workflow_visualizer::grid::GridRange::new(1.near(), 2.far()),
    );
    placement.add_view(6, view);
    assert!(placement.get_view(6) == view);
    let _key = Key::Title;
    let _other = Key::Body;
    let rp = ReferencePoint::new().with_x(RawMarker(1));
    assert!(rp.y.is_none());
    assert_eq!(rp.with_y(RawMarker(2)).y(), RawMarker(2));
}

#[test]
fn last_write_for_a_key_is_read_back() {
    let anchor = GridPoint::new(GridLocation::new(GridMarker(1), GridMarkerBias::Near), GridLocation::new(GridMarker(1), GridMarkerBias::Near));
    let mut placer: Placer<u64> = Placer::new(anchor);
    placer.add(1, RawMarker(3));
    placer.add(2, RawMarker(4));
    placer.add_point(1, RawMarker(9), RawMarker(9));
    placer.add(1, RawMarker(5));
    placer.add_reference_view(1, ReferenceView::new().with_top(RawMarker(2)));
    assert_eq!(placer.get(1), RawMarker(5));
    assert_eq!(placer.get(2), RawMarker(4));
    assert_eq!(placer.get_reference_point(1), ReferencePoint::new().with_x(RawMarker(9)).with_y(RawMarker(9)));
    let mut placement: Placement<u64> = Placement::new();
    let other = GridPoint::new(anchor.x, GridLocation::new(GridMarker(2), GridMarkerBias::Far));
    placement.add_point(7, anchor);
    placement.add_point(8, other);
    placement.add_point(7, other);
    assert_eq!(placement.get_point(7), other);
    assert_eq!(placement.get_point(8), other);
}
