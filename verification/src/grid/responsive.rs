use vstd::prelude::*;

use crate::grid::view::{GridLocation, GridMarker, GridMarkerBias, GridPoint, GridView};
use crate::grid::HorizontalSpan;

verus! {

/// One optional value per horizontal span: the total map from the three spans.
#[derive(Copy, Clone, PartialEq, Eq, Structural, Debug)]
pub struct SpanMapping<T> {
    pub four: Option<T>,
    pub eight: Option<T>,
    pub twelve: Option<T>,
}

impl<T> SpanMapping<T> {
    /// The mapping with no span set.
    pub fn new() -> (r: SpanMapping<T>)
        ensures
            r.four is None,
            r.eight is None,
            r.twelve is None,
    {
        SpanMapping { four: None, eight: None, twelve: None }
    }

    /// The value stored for `span`.
    pub open spec fn spec_get(&self, span: HorizontalSpan) -> Option<T> {
        match span {
            HorizontalSpan::Four => self.four,
            HorizontalSpan::Eight => self.eight,
            HorizontalSpan::Twelve => self.twelve,
        }
    }

    /// The value stored for `span`, if any.
    pub fn get(&self, span: &HorizontalSpan) -> (r: Option<&T>)
        ensures
            match r {
                Some(v) => self.spec_get(*span) == Some(*v),
                None => self.spec_get(*span) is None,
            },
    {
        match span {
            HorizontalSpan::Four => self.four.as_ref(),
            HorizontalSpan::Eight => self.eight.as_ref(),
            HorizontalSpan::Twelve => self.twelve.as_ref(),
        }
    }

    /// Stores `value` for `span`, leaving the other spans unchanged.
    pub fn insert(&mut self, span: HorizontalSpan, value: T)
        ensures
            final(self).spec_get(span) == Some(value),
            forall|s: HorizontalSpan| s != span ==> #[trigger] final(self).spec_get(s) == old(self).spec_get(s),
    {
        match span {
            HorizontalSpan::Four => {
                self.four = Some(value);
            },
            HorizontalSpan::Eight => {
                self.eight = Some(value);
            },
            HorizontalSpan::Twelve => {
                self.twelve = Some(value);
            },
        }
    }
}

/// A value (usually a GridView) for each horizontal span option.
#[derive(Copy, Clone, PartialEq, Eq, Structural, Debug)]
pub struct ResponsiveView<T> {
    pub mapping: SpanMapping<T>,
}

/// A GridView for each span.
pub type ResponsiveGridView = ResponsiveView<GridView>;

/// A GridPoint for each span.
pub type ResponsiveGridPoint = ResponsiveView<GridPoint>;

impl<F> ResponsiveView<F> {
    /// The value for `span`; the span must have been set.
    pub fn get_span(&self, span: &HorizontalSpan) -> (r: &F)
        requires
            self.mapping.spec_get(*span) is Some,
        ensures
            self.mapping.spec_get(*span) == Some(*r),
    {
        self.mapping.get(span).unwrap()
    }

    /// Sets the value for span four.
    pub fn with_span_four(self, view: F) -> (r: Self)
        ensures
            r.mapping.four == Some(view),
            r.mapping.eight == self.mapping.eight,
            r.mapping.twelve == self.mapping.twelve,
    {
        let mut this = self;
        this.mapping.four = Some(view);
        this
    }

    /// Sets the value for span eight.
    pub fn with_span_eight(self, view: F) -> (r: Self)
        ensures
            r.mapping.eight == Some(view),
            r.mapping.four == self.mapping.four,
            r.mapping.twelve == self.mapping.twelve,
    {
        let mut this = self;
        this.mapping.eight = Some(view);
        this
    }

    /// Sets the value for span twelve.
    pub fn with_span_twelve(self, view: F) -> (r: Self)
        ensures
            r.mapping.twelve == Some(view),
            r.mapping.four == self.mapping.four,
            r.mapping.eight == self.mapping.eight,
    {
        let mut this = self;
        this.mapping.twelve = Some(view);
        this
    }

    /// The same value for every span: clones of `view` for spans four and eight, `view`
    /// itself for span twelve.
    pub fn all_same(view: F) -> (r: Self) where F: Clone
        ensures
            r.mapping.four matches Some(v) && cloned(view, v),
            r.mapping.eight matches Some(v) && cloned(view, v),
            r.mapping.twelve == Some(view),
    {
        let four = view.clone();
        let eight = view.clone();
        ResponsiveView { mapping: SpanMapping { four: Some(four), eight: Some(eight), twelve: Some(view) } }
    }

    /// An explicit value for each span.
    pub fn explicit(four: F, eight: F, twelve: F) -> (r: Self)
        ensures
            r.mapping.four == Some(four),
            r.mapping.eight == Some(eight),
            r.mapping.twelve == Some(twelve),
    {
        ResponsiveView {
            mapping: SpanMapping { four: Some(four), eight: Some(eight), twelve: Some(twelve) },
        }
    }
}

/// Shorthand for a GridLocation at the near or far edge of a column.
pub trait ResponsiveUnit {
    fn near(self) -> GridLocation;

    fn far(self) -> GridLocation;
}

impl ResponsiveUnit for i32 {
    fn near(self) -> (r: GridLocation)
        ensures
            r == GridLocation::spec_at(GridMarker(self), GridMarkerBias::Near),
    {
        GridLocation::new(GridMarker(self), GridMarkerBias::Near)
    }

    fn far(self) -> (r: GridLocation)
        ensures
            r == GridLocation::spec_at(GridMarker(self), GridMarkerBias::Far),
    {
        GridLocation::new(GridMarker(self), GridMarkerBias::Far)
    }
}

impl ResponsiveUnit for GridMarker {
    fn near(self) -> (r: GridLocation)
        ensures
            r == GridLocation::spec_at(self, GridMarkerBias::Near),
    {
        self.0.near()
    }

    fn far(self) -> (r: GridLocation)
        ensures
            r == GridLocation::spec_at(self, GridMarkerBias::Far),
    {
        self.0.far()
    }
}

} // verus!
