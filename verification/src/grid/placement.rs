use std::collections::HashMap;
use std::hash::Hash;

use vstd::prelude::*;
use vstd::std_specs::hash::obeys_key_model;

use crate::grid::marker::{fits_i32, RawMarker};
use crate::grid::view::{GridLocation, GridPoint, GridRange, GridView};

verus! {

broadcast use vstd::std_specs::hash::group_hash_axioms;

/// Optional marker offsets for each side of a view, relative to an anchor.
#[derive(Copy, Clone, PartialEq, Eq, Structural, Debug, Default)]
pub struct ReferenceView {
    pub top: Option<RawMarker>,
    pub left: Option<RawMarker>,
    pub right: Option<RawMarker>,
    pub bottom: Option<RawMarker>,
}

impl ReferenceView {
    /// A reference view with no side set.
    pub fn new() -> (r: ReferenceView)
        ensures
            r.top is None,
            r.left is None,
            r.right is None,
            r.bottom is None,
    {
        ReferenceView { top: None, left: None, right: None, bottom: None }
    }

    /// Whether all four sides are set.
    pub open spec fn complete(self) -> bool {
        self.top is Some && self.left is Some && self.right is Some && self.bottom is Some
    }

    pub fn top(&self) -> (r: RawMarker)
        requires
            self.top is Some,
        ensures
            r == self.top.unwrap(),
    {
        self.top.unwrap()
    }

    pub fn left(&self) -> (r: RawMarker)
        requires
            self.left is Some,
        ensures
            r == self.left.unwrap(),
    {
        self.left.unwrap()
    }

    pub fn right(&self) -> (r: RawMarker)
        requires
            self.right is Some,
        ensures
            r == self.right.unwrap(),
    {
        self.right.unwrap()
    }

    pub fn bottom(&self) -> (r: RawMarker)
        requires
            self.bottom is Some,
        ensures
            r == self.bottom.unwrap(),
    {
        self.bottom.unwrap()
    }

    pub fn with_top(self, top: RawMarker) -> (r: ReferenceView)
        ensures
            r == (ReferenceView { top: Some(top), ..self }),
    {
        let mut this = self;
        this.top = Some(top);
        this
    }

    pub fn with_left(self, left: RawMarker) -> (r: ReferenceView)
        ensures
            r == (ReferenceView { left: Some(left), ..self }),
    {
        let mut this = self;
        this.left = Some(left);
        this
    }

    pub fn with_right(self, right: RawMarker) -> (r: ReferenceView)
        ensures
            r == (ReferenceView { right: Some(right), ..self }),
    {
        let mut this = self;
        this.right = Some(right);
        this
    }

    pub fn with_bottom(self, bottom: RawMarker) -> (r: ReferenceView)
        ensures
            r == (ReferenceView { bottom: Some(bottom), ..self }),
    {
        let mut this = self;
        this.bottom = Some(bottom);
        this
    }
}

/// Optional marker offsets along each axis, relative to an anchor.
#[derive(Copy, Clone, PartialEq, Eq, Structural, Debug, Default)]
pub struct ReferencePoint {
    pub x: Option<RawMarker>,
    pub y: Option<RawMarker>,
}

impl ReferencePoint {
    /// A reference point with no axis set.
    pub fn new() -> (r: ReferencePoint)
        ensures
            r.x is None,
            r.y is None,
    {
        ReferencePoint { x: None, y: None }
    }

    pub fn x(&self) -> (r: RawMarker)
        requires
            self.x is Some,
        ensures
            r == self.x.unwrap(),
    {
        self.x.unwrap()
    }

    pub fn y(&self) -> (r: RawMarker)
        requires
            self.y is Some,
        ensures
            r == self.y.unwrap(),
    {
        self.y.unwrap()
    }

    pub fn with_x(self, x: RawMarker) -> (r: ReferencePoint)
        ensures
            r.x == Some(x),
            r.y == self.y,
    {
        let mut this = self;
        this.x = Some(x);
        this
    }

    pub fn with_y(self, y: RawMarker) -> (r: ReferencePoint)
        ensures
            r.x == self.x,
            r.y == Some(y),
    {
        let mut this = self;
        this.y = Some(y);
        this
    }
}

/// `location` moved by `markers` more offset markers.
pub open spec fn shifted(location: GridLocation, markers: RawMarker) -> GridLocation {
    GridLocation {
        location: location.location,
        offset: Some(
            crate::grid::view::GridLocationOffset(
                RawMarker((location.offset_markers() + markers.0) as i32),
            ),
        ),
    }
}

/// What a placer holds by key: relative offsets, reference views and reference points.
#[verifier::reject_recursive_types(K)]
pub struct PlacerMaps<K> {
    pub offsets: Map<K, RawMarker>,
    pub views: Map<K, ReferenceView>,
    pub points: Map<K, ReferencePoint>,
}

/// One write into a placer, as `add`, `add_reference_view` and `add_point` make it.
pub enum PlacerWrite<K> {
    Offset { key: K, marker: RawMarker },
    View { key: K, view: ReferenceView },
    Point { key: K, x: RawMarker, y: RawMarker },
}

/// The placer's maps after `w`.
pub open spec fn placer_step<K>(s: PlacerMaps<K>, w: PlacerWrite<K>) -> PlacerMaps<K> {
    match w {
        PlacerWrite::Offset { key, marker } => PlacerMaps {
            offsets: s.offsets.insert(key, marker),
            ..s
        },
        PlacerWrite::View { key, view } => PlacerMaps { views: s.views.insert(key, view), ..s },
        PlacerWrite::Point { key, x, y } => PlacerMaps {
            points: s.points.insert(key, ReferencePoint { x: Some(x), y: Some(y) }),
            ..s
        },
    }
}

/// The placer's maps after the writes `ws`, in order.
pub open spec fn placer_after<K>(s: PlacerMaps<K>, ws: Seq<PlacerWrite<K>>) -> PlacerMaps<K>
    decreases ws.len(),
{
    if ws.len() == 0 {
        s
    } else {
        placer_step(placer_after(s, ws.drop_last()), ws.last())
    }
}

/// Whether `w` writes the relative offset of `key`.
pub open spec fn writes_offset<K>(w: PlacerWrite<K>, key: K) -> bool {
    w matches PlacerWrite::Offset { key: k, .. } && k == key
}

/// Whether `w` writes the reference view of `key`.
pub open spec fn writes_view<K>(w: PlacerWrite<K>, key: K) -> bool {
    w matches PlacerWrite::View { key: k, .. } && k == key
}

/// Whether `w` writes the reference point of `key`.
pub open spec fn writes_point<K>(w: PlacerWrite<K>, key: K) -> bool {
    w matches PlacerWrite::Point { key: k, .. } && k == key
}

/// After a sequence of writes, the relative offset of `key` is the one its last offset
/// write recorded; later writes of other keys or other kinds leave it.
pub proof fn lemma_placer_last_offset_wins<K>(
    s: PlacerMaps<K>,
    ws: Seq<PlacerWrite<K>>,
    i: int,
    key: K,
    marker: RawMarker,
)
    requires
        0 <= i < ws.len(),
        ws[i] == (PlacerWrite::Offset { key, marker }),
        forall|j: int| i < j < ws.len() ==> !writes_offset(#[trigger] ws[j], key),
    ensures
        placer_after(s, ws).offsets.contains_key(key),
        placer_after(s, ws).offsets[key] == marker,
    decreases ws.len(),
{
    if i < ws.len() - 1 {
        assert(!writes_offset(ws[ws.len() - 1], key));
        lemma_placer_last_offset_wins(s, ws.drop_last(), i, key, marker);
    }
}

/// After a sequence of writes, the reference view of `key` is the one its last view write
/// recorded; later writes of other keys or other kinds leave it.
pub proof fn lemma_placer_last_view_wins<K>(
    s: PlacerMaps<K>,
    ws: Seq<PlacerWrite<K>>,
    i: int,
    key: K,
    view: ReferenceView,
)
    requires
        0 <= i < ws.len(),
        ws[i] == (PlacerWrite::View { key, view }),
        forall|j: int| i < j < ws.len() ==> !writes_view(#[trigger] ws[j], key),
    ensures
        placer_after(s, ws).views.contains_key(key),
        placer_after(s, ws).views[key] == view,
    decreases ws.len(),
{
    if i < ws.len() - 1 {
        assert(!writes_view(ws[ws.len() - 1], key));
        lemma_placer_last_view_wins(s, ws.drop_last(), i, key, view);
    }
}

/// After a sequence of writes, the reference point of `key` is the one its last point
/// write recorded; later writes of other keys or other kinds leave it.
pub proof fn lemma_placer_last_point_wins<K>(
    s: PlacerMaps<K>,
    ws: Seq<PlacerWrite<K>>,
    i: int,
    key: K,
    x: RawMarker,
    y: RawMarker,
)
    requires
        0 <= i < ws.len(),
        ws[i] == (PlacerWrite::Point { key, x, y }),
        forall|j: int| i < j < ws.len() ==> !writes_point(#[trigger] ws[j], key),
    ensures
        placer_after(s, ws).points.contains_key(key),
        placer_after(s, ws).points[key] == (ReferencePoint { x: Some(x), y: Some(y) }),
    decreases ws.len(),
{
    if i < ws.len() - 1 {
        assert(!writes_point(ws[ws.len() - 1], key));
        lemma_placer_last_point_wins(s, ws.drop_last(), i, key, x, y);
    }
}

/// A key that no write of a kind touches keeps what it had in that map (and stays absent
/// if it was absent).
pub proof fn lemma_placer_unwritten_keys_keep<K>(s: PlacerMaps<K>, ws: Seq<PlacerWrite<K>>, key: K)
    ensures
        (forall|j: int| 0 <= j < ws.len() ==> !writes_offset(#[trigger] ws[j], key)) ==> {
            &&& placer_after(s, ws).offsets.contains_key(key) == s.offsets.contains_key(key)
            &&& placer_after(s, ws).offsets[key] == s.offsets[key]
        },
        (forall|j: int| 0 <= j < ws.len() ==> !writes_view(#[trigger] ws[j], key)) ==> {
            &&& placer_after(s, ws).views.contains_key(key) == s.views.contains_key(key)
            &&& placer_after(s, ws).views[key] == s.views[key]
        },
        (forall|j: int| 0 <= j < ws.len() ==> !writes_point(#[trigger] ws[j], key)) ==> {
            &&& placer_after(s, ws).points.contains_key(key) == s.points.contains_key(key)
            &&& placer_after(s, ws).points[key] == s.points[key]
        },
    decreases ws.len(),
{
    if ws.len() > 0 {
        lemma_placer_unwritten_keys_keep(s, ws.drop_last(), key);
        let n = ws.len() - 1;
        if forall|j: int| 0 <= j < ws.len() ==> !writes_offset(#[trigger] ws[j], key) {
            assert forall|j: int| 0 <= j < ws.drop_last().len() implies !writes_offset(
                #[trigger] ws.drop_last()[j],
                key,
            ) by {
                assert(!writes_offset(ws[j], key));
            }
            assert(!writes_offset(ws[n], key));
        }
        if forall|j: int| 0 <= j < ws.len() ==> !writes_view(#[trigger] ws[j], key) {
            assert forall|j: int| 0 <= j < ws.drop_last().len() implies !writes_view(
                #[trigger] ws.drop_last()[j],
                key,
            ) by {
                assert(!writes_view(ws[j], key));
            }
            assert(!writes_view(ws[n], key));
        }
        if forall|j: int| 0 <= j < ws.len() ==> !writes_point(#[trigger] ws[j], key) {
            assert forall|j: int| 0 <= j < ws.drop_last().len() implies !writes_point(
                #[trigger] ws.drop_last()[j],
                key,
            ) by {
                assert(!writes_point(ws[j], key));
            }
            assert(!writes_point(ws[n], key));
        }
    }
}

/// Places views and points relative to an anchor point, by key.
pub struct Placer<PlacementKey> {
    pub anchor: GridPoint,
    pub relative_offsets: HashMap<PlacementKey, RawMarker>,
    pub reference_views: HashMap<PlacementKey, ReferenceView>,
    pub reference_points: HashMap<PlacementKey, ReferencePoint>,
}

impl<PlacementKey: Eq + Hash> Placer<PlacementKey> {
    /// The placer's maps.
    pub open spec fn maps(&self) -> PlacerMaps<PlacementKey> {
        PlacerMaps {
            offsets: self.relative_offsets@,
            views: self.reference_views@,
            points: self.reference_points@,
        }
    }

    /// Whether offsets of up to `markers` can be added to the anchor without overflow.
    pub open spec fn offset_fits(self, markers: RawMarker) -> bool {
        fits_i32(self.anchor.x.offset_markers() + markers.0) && fits_i32(
            self.anchor.y.offset_markers() + markers.0,
        )
    }

    /// A placer anchored at `anchor` with nothing placed yet.
    pub fn new(anchor: GridPoint) -> (r: Placer<PlacementKey>)
        ensures
            r.anchor == anchor,
            r.relative_offsets@ == Map::<PlacementKey, RawMarker>::empty(),
            r.reference_views@ == Map::<PlacementKey, ReferenceView>::empty(),
            r.reference_points@ == Map::<PlacementKey, ReferencePoint>::empty(),
    {
        Placer {
            anchor,
            relative_offsets: HashMap::new(),
            reference_views: HashMap::new(),
            reference_points: HashMap::new(),
        }
    }

    /// Records `marker` as the relative offset of `key`.
    pub fn add(&mut self, key: PlacementKey, marker: RawMarker)
        requires
            obeys_key_model::<PlacementKey>(),
        ensures
            final(self).maps() == placer_step(old(self).maps(), PlacerWrite::Offset { key, marker }),
            final(self).relative_offsets@ == old(self).relative_offsets@.insert(key, marker),
            final(self).reference_views@ == old(self).reference_views@,
            final(self).reference_points@ == old(self).reference_points@,
            final(self).anchor == old(self).anchor,
    {
        self.relative_offsets.insert(key, marker);
    }

    /// Records `view` as the reference view of `key`.
    pub fn add_reference_view(&mut self, key: PlacementKey, view: ReferenceView)
        requires
            obeys_key_model::<PlacementKey>(),
        ensures
            final(self).maps() == placer_step(old(self).maps(), PlacerWrite::View { key, view }),
            final(self).reference_views@ == old(self).reference_views@.insert(key, view),
            final(self).relative_offsets@ == old(self).relative_offsets@,
            final(self).reference_points@ == old(self).reference_points@,
            final(self).anchor == old(self).anchor,
    {
        self.reference_views.insert(key, view);
    }

    /// Records the reference point (`x`, `y`) for `key`.
    pub fn add_point(&mut self, key: PlacementKey, x: RawMarker, y: RawMarker)
        requires
            obeys_key_model::<PlacementKey>(),
        ensures
            final(self).maps() == placer_step(old(self).maps(), PlacerWrite::Point { key, x, y }),
            final(self).reference_points@ == old(self).reference_points@.insert(
                key,
                ReferencePoint { x: Some(x), y: Some(y) },
            ),
            final(self).relative_offsets@ == old(self).relative_offsets@,
            final(self).reference_views@ == old(self).reference_views@,
            final(self).anchor == old(self).anchor,
    {
        self.reference_points.insert(key, ReferencePoint::new().with_x(x).with_y(y));
    }

    /// The reference view of `key`, which must have been added.
    pub fn reference_view(&self, key: PlacementKey) -> (r: ReferenceView)
        requires
            obeys_key_model::<PlacementKey>(),
            self.reference_views@.contains_key(key),
        ensures
            r == self.reference_views@[key],
    {
        *self.reference_views.get(&key).unwrap()
    }

    /// The relative offset of `key`, which must have been added.
    pub fn get(&self, key: PlacementKey) -> (r: RawMarker)
        requires
            obeys_key_model::<PlacementKey>(),
            self.relative_offsets@.contains_key(key),
        ensures
            r == self.relative_offsets@[key],
    {
        *self.relative_offsets.get(&key).unwrap()
    }

    /// The reference point of `key`, which must have been added.
    pub fn get_reference_point(&self, key: PlacementKey) -> (r: ReferencePoint)
        requires
            obeys_key_model::<PlacementKey>(),
            self.reference_points@.contains_key(key),
        ensures
            r == self.reference_points@[key],
    {
        *self.reference_points.get(&key).unwrap()
    }

    /// The view spanning from the anchor moved by `hb` to moved by `he` horizontally,
    /// and by `vb` to `ve` vertically.
    pub fn view(&self, hb: RawMarker, he: RawMarker, vb: RawMarker, ve: RawMarker) -> (r: GridView)
        requires
            fits_i32(self.anchor.x.offset_markers() + hb.0),
            fits_i32(self.anchor.x.offset_markers() + he.0),
            fits_i32(self.anchor.y.offset_markers() + vb.0),
            fits_i32(self.anchor.y.offset_markers() + ve.0),
        ensures
            r.horizontal.begin == shifted(self.anchor.x, hb),
            r.horizontal.end == shifted(self.anchor.x, he),
            r.vertical.begin == shifted(self.anchor.y, vb),
            r.vertical.end == shifted(self.anchor.y, ve),
    {
        GridView::new(
            GridRange::new(self.anchor.x.raw_offset(hb), self.anchor.x.raw_offset(he)),
            GridRange::new(self.anchor.y.raw_offset(vb), self.anchor.y.raw_offset(ve)),
        )
    }

    /// The point at the anchor moved by `hb` horizontally and `vb` vertically.
    pub fn point(&self, hb: RawMarker, vb: RawMarker) -> (r: GridPoint)
        requires
            fits_i32(self.anchor.x.offset_markers() + hb.0),
            fits_i32(self.anchor.y.offset_markers() + vb.0),
        ensures
            r.x == shifted(self.anchor.x, hb),
            r.y == shifted(self.anchor.y, vb),
    {
        GridPoint::new(self.anchor.x.raw_offset(hb), self.anchor.y.raw_offset(vb))
    }

    /// The view given by the complete reference view of `key`.
    pub fn view_from_reference(&self, key: PlacementKey) -> (r: GridView)
        requires
            obeys_key_model::<PlacementKey>(),
            self.reference_views@.contains_key(key),
            self.reference_views@[key].complete(),
            ({
                let b = self.reference_views@[key];
                &&& fits_i32(self.anchor.x.offset_markers() + b.left.unwrap().0)
                &&& fits_i32(self.anchor.x.offset_markers() + b.right.unwrap().0)
                &&& fits_i32(self.anchor.y.offset_markers() + b.top.unwrap().0)
                &&& fits_i32(self.anchor.y.offset_markers() + b.bottom.unwrap().0)
            }),
        ensures
            ({
                let b = self.reference_views@[key];
                &&& r.horizontal.begin == shifted(self.anchor.x, b.left.unwrap())
                &&& r.horizontal.end == shifted(self.anchor.x, b.right.unwrap())
                &&& r.vertical.begin == shifted(self.anchor.y, b.top.unwrap())
                &&& r.vertical.end == shifted(self.anchor.y, b.bottom.unwrap())
            }),
    {
        let b = self.reference_view(key);
        self.view(b.left(), b.right(), b.top(), b.bottom())
    }

    /// The point given by the reference point of `key`.
    pub fn point_from_reference(&self, key: PlacementKey) -> (r: GridPoint)
        requires
            obeys_key_model::<PlacementKey>(),
            self.reference_points@.contains_key(key),
            self.reference_points@[key].x is Some,
            self.reference_points@[key].y is Some,
            fits_i32(self.anchor.x.offset_markers() + self.reference_points@[key].x.unwrap().0),
            fits_i32(self.anchor.y.offset_markers() + self.reference_points@[key].y.unwrap().0),
        ensures
            r.x == shifted(self.anchor.x, self.reference_points@[key].x.unwrap()),
            r.y == shifted(self.anchor.y, self.reference_points@[key].y.unwrap()),
    {
        let b = *self.reference_points.get(&key).unwrap();
        self.point(b.x(), b.y())
    }
}

/// What a placement holds by key: views and points.
#[verifier::reject_recursive_types(K)]
pub struct PlacementMaps<K> {
    pub views: Map<K, GridView>,
    pub points: Map<K, GridPoint>,
}

/// One write into a placement, as `add_view` and `add_point` make it.
pub enum PlacementWrite<K> {
    View { key: K, view: GridView },
    Point { key: K, point: GridPoint },
}

/// The placement's maps after `w`.
pub open spec fn placement_step<K>(s: PlacementMaps<K>, w: PlacementWrite<K>) -> PlacementMaps<K> {
    match w {
        PlacementWrite::View { key, view } => PlacementMaps { views: s.views.insert(key, view), ..s },
        PlacementWrite::Point { key, point } => PlacementMaps {
            points: s.points.insert(key, point),
            ..s
        },
    }
}

/// The placement's maps after the writes `ws`, in order.
pub open spec fn placement_after<K>(s: PlacementMaps<K>, ws: Seq<PlacementWrite<K>>) -> PlacementMaps<K>
    decreases ws.len(),
{
    if ws.len() == 0 {
        s
    } else {
        placement_step(placement_after(s, ws.drop_last()), ws.last())
    }
}

/// Whether `w` writes the view of `key`.
pub open spec fn writes_placed_view<K>(w: PlacementWrite<K>, key: K) -> bool {
    w matches PlacementWrite::View { key: k, .. } && k == key
}

/// Whether `w` writes the point of `key`.
pub open spec fn writes_placed_point<K>(w: PlacementWrite<K>, key: K) -> bool {
    w matches PlacementWrite::Point { key: k, .. } && k == key
}

/// After a sequence of writes, the view of `key` is the one its last view write stored;
/// later writes of other keys, and point writes, leave it.
pub proof fn lemma_placement_last_view_wins<K>(
    s: PlacementMaps<K>,
    ws: Seq<PlacementWrite<K>>,
    i: int,
    key: K,
    view: GridView,
)
    requires
        0 <= i < ws.len(),
        ws[i] == (PlacementWrite::View { key, view }),
        forall|j: int| i < j < ws.len() ==> !writes_placed_view(#[trigger] ws[j], key),
    ensures
        placement_after(s, ws).views.contains_key(key),
        placement_after(s, ws).views[key] == view,
    decreases ws.len(),
{
    if i < ws.len() - 1 {
        assert(!writes_placed_view(ws[ws.len() - 1], key));
        lemma_placement_last_view_wins(s, ws.drop_last(), i, key, view);
    }
}

/// After a sequence of writes, the point of `key` is the one its last point write stored;
/// later writes of other keys, and view writes, leave it.
pub proof fn lemma_placement_last_point_wins<K>(
    s: PlacementMaps<K>,
    ws: Seq<PlacementWrite<K>>,
    i: int,
    key: K,
    point: GridPoint,
)
    requires
        0 <= i < ws.len(),
        ws[i] == (PlacementWrite::Point { key, point }),
        forall|j: int| i < j < ws.len() ==> !writes_placed_point(#[trigger] ws[j], key),
    ensures
        placement_after(s, ws).points.contains_key(key),
        placement_after(s, ws).points[key] == point,
    decreases ws.len(),
{
    if i < ws.len() - 1 {
        assert(!writes_placed_point(ws[ws.len() - 1], key));
        lemma_placement_last_point_wins(s, ws.drop_last(), i, key, point);
    }
}

/// A key that no write of a kind touches keeps what it had in that map (and stays absent
/// if it was absent).
pub proof fn lemma_placement_unwritten_keys_keep<K>(
    s: PlacementMaps<K>,
    ws: Seq<PlacementWrite<K>>,
    key: K,
)
    ensures
        (forall|j: int| 0 <= j < ws.len() ==> !writes_placed_view(#[trigger] ws[j], key)) ==> {
            &&& placement_after(s, ws).views.contains_key(key) == s.views.contains_key(key)
            &&& placement_after(s, ws).views[key] == s.views[key]
        },
        (forall|j: int| 0 <= j < ws.len() ==> !writes_placed_point(#[trigger] ws[j], key)) ==> {
            &&& placement_after(s, ws).points.contains_key(key) == s.points.contains_key(key)
            &&& placement_after(s, ws).points[key] == s.points[key]
        },
    decreases ws.len(),
{
    if ws.len() > 0 {
        lemma_placement_unwritten_keys_keep(s, ws.drop_last(), key);
        let n = ws.len() - 1;
        if forall|j: int| 0 <= j < ws.len() ==> !writes_placed_view(#[trigger] ws[j], key) {
            assert forall|j: int| 0 <= j < ws.drop_last().len() implies !writes_placed_view(
                #[trigger] ws.drop_last()[j],
                key,
            ) by {
                assert(!writes_placed_view(ws[j], key));
            }
            assert(!writes_placed_view(ws[n], key));
        }
        if forall|j: int| 0 <= j < ws.len() ==> !writes_placed_point(#[trigger] ws[j], key) {
            assert forall|j: int| 0 <= j < ws.drop_last().len() implies !writes_placed_point(
                #[trigger] ws.drop_last()[j],
                key,
            ) by {
                assert(!writes_placed_point(ws[j], key));
            }
            assert(!writes_placed_point(ws[n], key));
        }
    }
}

/// Views and points stored by key.
pub struct Placement<PlacementKey> {
    pub views: HashMap<PlacementKey, GridView>,
    pub points: HashMap<PlacementKey, GridPoint>,
}

impl<PlacementKey: Eq + Hash> Placement<PlacementKey> {
    /// The placement's maps.
    pub open spec fn maps(&self) -> PlacementMaps<PlacementKey> {
        PlacementMaps { views: self.views@, points: self.points@ }
    }

    /// An empty placement.
    pub fn new() -> (r: Placement<PlacementKey>)
        ensures
            r.views@ == Map::<PlacementKey, GridView>::empty(),
            r.points@ == Map::<PlacementKey, GridPoint>::empty(),
    {
        Placement { views: HashMap::new(), points: HashMap::new() }
    }

    pub fn add_view(&mut self, key: PlacementKey, view: GridView)
        requires
            obeys_key_model::<PlacementKey>(),
        ensures
            final(self).maps() == placement_step(old(self).maps(), PlacementWrite::View { key, view }),
            final(self).views@ == old(self).views@.insert(key, view),
            final(self).points@ == old(self).points@,
    {
        self.views.insert(key, view);
    }

    pub fn add_point(&mut self, key: PlacementKey, point: GridPoint)
        requires
            obeys_key_model::<PlacementKey>(),
        ensures
            final(self).maps() == placement_step(old(self).maps(), PlacementWrite::Point { key, point }),
            final(self).points@ == old(self).points@.insert(key, point),
            final(self).views@ == old(self).views@,
    {
        self.points.insert(key, point);
    }

    /// The view stored for `key`, which must have been added.
    pub fn get_view(&self, key: PlacementKey) -> (r: GridView)
        requires
            obeys_key_model::<PlacementKey>(),
            self.views@.contains_key(key),
        ensures
            r == self.views@[key],
    {
        *self.views.get(&key).unwrap()
    }

    /// The point stored for `key`, which must have been added.
    pub fn get_point(&self, key: PlacementKey) -> (r: GridPoint)
        requires
            obeys_key_model::<PlacementKey>(),
            self.points@.contains_key(key),
        ensures
            r == self.points@[key],
    {
        *self.points.get(&key).unwrap()
    }
}

} // verus!
