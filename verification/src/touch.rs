//! Raw touch and mouse input turned into touch events, before interaction resolution.
//!
//! Locations are generic (`P`); whether the mouse is inside the viewport is computed by
//! the caller, which owns the geometry.

use std::collections::HashMap;

use vstd::prelude::*;
use vstd::std_specs::hash::spec_keys_iter;
use vstd::std_specs::iter::IteratorSpec;

use crate::interaction::{
    button_number, Interaction, InteractionDevice, InteractionEvent, InteractionPhase, MouseButtonCode,
};

verus! {

broadcast use vstd::std_specs::hash::group_hash_axioms;

/// Identifier of a finger or mouse button.
#[derive(Copy, Clone, PartialEq, Eq, Structural, Debug, Hash)]
pub struct Interactor(pub u32);

/// The course of one touch (or button press).
#[derive(Copy, Clone, PartialEq, Eq, Structural, Debug)]
pub struct TrackedTouch<P> {
    pub start: P,
    pub current: P,
    pub end: Option<P>,
    pub cancelled: bool,
}

impl<P: Copy> TrackedTouch<P> {
    pub fn new(start: P) -> (r: TrackedTouch<P>)
        ensures
            r == (TrackedTouch { start, current: start, end: None, cancelled: false }),
    {
        TrackedTouch { start, current: start, end: None, cancelled: false }
    }
}

/// Kind of a touch event sent to the interface.
#[derive(Copy, Clone, PartialEq, Eq, Structural, Debug)]
pub enum TouchType {
    OnPress,
    OnMove,
    OnRelease,
    Cancelled,
}

/// A touch event; a cancellation carries no location (the default touch).
#[derive(Copy, Clone, PartialEq, Eq, Structural, Debug)]
pub struct TouchEvent<P> {
    pub touch_type: TouchType,
    pub location: Option<P>,
}

/// The interaction phase a touch event reports.
pub open spec fn phase_of(touch_type: TouchType) -> InteractionPhase {
    match touch_type {
        TouchType::OnPress => InteractionPhase::Started,
        TouchType::OnMove => InteractionPhase::Moved,
        TouchType::OnRelease => InteractionPhase::Ended,
        TouchType::Cancelled => InteractionPhase::Cancelled,
    }
}

/// The interaction event of `event` from `device` for `interaction`; a cancellation,
/// which carries no location, is placed at `fallback`.
pub fn interaction_event<P: Copy>(
    event: TouchEvent<P>,
    device: InteractionDevice,
    interaction: Interaction,
    fallback: P,
) -> (r: InteractionEvent<P>)
    ensures
        r == (InteractionEvent {
            device,
            location: match event.location {
                Some(l) => l,
                None => fallback,
            },
            phase: phase_of(event.touch_type),
            interaction,
        }),
{
    let phase = match event.touch_type {
        TouchType::OnPress => InteractionPhase::Started,
        TouchType::OnMove => InteractionPhase::Moved,
        TouchType::OnRelease => InteractionPhase::Ended,
        TouchType::Cancelled => InteractionPhase::Cancelled,
    };
    let location = match event.location {
        Some(l) => l,
        None => fallback,
    };
    InteractionEvent::new(device, location, phase, interaction)
}

/// Touches in progress and the primary one.
pub struct TouchAdapter<P> {
    pub primary: Option<Interactor>,
    pub touches: HashMap<u32, TrackedTouch<P>>,
}

impl<P> TouchAdapter<P> {
    /// The primary touch is always one that is followed.
    pub open spec fn wf(&self) -> bool {
        self.primary matches Some(p) ==> self.touches@.contains_key(p.0)
    }

    pub fn new() -> (r: TouchAdapter<P>)
        ensures
            r.primary is None,
            r.touches@ == Map::<u32, TrackedTouch<P>>::empty(),
            r.wf(),
    {
        TouchAdapter { primary: None, touches: HashMap::new() }
    }
}

/// Handles one touch report of finger `touch_id` in `phase` at `location` (relative to the
/// viewport). A start makes the finger primary when none is, sending a press; every
/// finger's course is followed; moves, ends and cancellations of the primary finger send
/// a move, a release and a cancellation, and the latter two end its primacy.
pub fn register_touch<P: Copy>(
    adapter: &mut TouchAdapter<P>,
    touch_id: u64,
    phase: InteractionPhase,
    location: P,
) -> (events: Vec<TouchEvent<P>>)
    requires
        old(adapter).wf(),
    ensures
        final(adapter).wf(),
        ({
            let id = touch_id as u32;
            let is_primary = old(adapter).primary == Some(Interactor(id));
            let t = old(adapter).touches@;
            match phase {
                InteractionPhase::Started => {
                    &&& final(adapter).touches@ == t.insert(
                        id,
                        TrackedTouch { start: location, current: location, end: None, cancelled: false },
                    )
                    &&& if old(adapter).primary is None {
                        &&& final(adapter).primary == Some(Interactor(id))
                        &&& events@ == seq![TouchEvent { touch_type: TouchType::OnPress, location: Some(location) }]
                    } else {
                        &&& final(adapter).primary == old(adapter).primary
                        &&& events@.len() == 0
                    }
                },
                InteractionPhase::Moved => {
                    &&& final(adapter).touches@ == if t.contains_key(id) {
                        t.insert(id, TrackedTouch { current: location, ..t[id] })
                    } else {
                        t
                    }
                    &&& final(adapter).primary == old(adapter).primary
                    &&& events@ == if is_primary {
                        seq![TouchEvent { touch_type: TouchType::OnMove, location: Some(location) }]
                    } else {
                        Seq::<TouchEvent<P>>::empty()
                    }
                },
                InteractionPhase::Ended => {
                    &&& final(adapter).touches@ == if t.contains_key(id) {
                        t.insert(id, TrackedTouch { end: Some(location), ..t[id] })
                    } else {
                        t
                    }
                    &&& final(adapter).primary == if is_primary {
                        None
                    } else {
                        old(adapter).primary
                    }
                    &&& events@ == if is_primary {
                        seq![TouchEvent { touch_type: TouchType::OnRelease, location: Some(location) }]
                    } else {
                        Seq::<TouchEvent<P>>::empty()
                    }
                },
                InteractionPhase::Cancelled => {
                    &&& final(adapter).touches@ == if t.contains_key(id) {
                        t.insert(id, TrackedTouch { cancelled: true, ..t[id] })
                    } else {
                        t
                    }
                    &&& final(adapter).primary == if is_primary {
                        None
                    } else {
                        old(adapter).primary
                    }
                    &&& events@ == if is_primary {
                        seq![TouchEvent { touch_type: TouchType::Cancelled, location: None }]
                    } else {
                        Seq::<TouchEvent<P>>::empty()
                    }
                },
            }
        }),
{
    let mut events: Vec<TouchEvent<P>> = Vec::new();
    let interactor = Interactor(touch_id as u32);
    match phase {
        InteractionPhase::Started => {
            if adapter.primary.is_none() {
                adapter.primary = Some(interactor);
                events.push(TouchEvent { touch_type: TouchType::OnPress, location: Some(location) });
            }
            adapter.touches.insert(interactor.0, TrackedTouch::new(location));
        },
        InteractionPhase::Moved => {
            match adapter.touches.get(&interactor.0) {
                Some(registered) => {
                    let mut updated = *registered;
                    updated.current = location;
                    adapter.touches.insert(interactor.0, updated);
                },
                None => {},
            }
            match adapter.primary {
                Some(prime) => {
                    if prime == interactor {
                        let internal = *adapter.touches.get(&prime.0).unwrap();
                        events.push(
                            TouchEvent { touch_type: TouchType::OnMove, location: Some(internal.current) },
                        );
                    }
                },
                None => {},
            }
        },
        InteractionPhase::Ended => {
            match adapter.touches.get(&interactor.0) {
                Some(click) => {
                    let mut updated = *click;
                    updated.end = Some(location);
                    adapter.touches.insert(interactor.0, updated);
                },
                None => {},
            }
            match adapter.primary {
                Some(prime) => {
                    if prime == interactor {
                        adapter.primary = None;
                        events.push(
                            TouchEvent { touch_type: TouchType::OnRelease, location: Some(location) },
                        );
                    }
                },
                None => {},
            }
        },
        InteractionPhase::Cancelled => {
            match adapter.primary {
                Some(prime) => {
                    if prime == interactor {
                        adapter.primary = None;
                        events.push(TouchEvent { touch_type: TouchType::Cancelled, location: None });
                    }
                },
                None => {},
            }
            match adapter.touches.get(&interactor.0) {
                Some(registered) => {
                    let mut updated = *registered;
                    updated.cancelled = true;
                    adapter.touches.insert(interactor.0, updated);
                },
                None => {},
            }
        },
    }
    events
}

/// State of a mouse button.
#[derive(Copy, Clone, PartialEq, Eq, Structural, Debug)]
pub enum ButtonState {
    Pressed,
    Released,
}

/// Mouse location and the state and course of each button, by button number.
pub struct MouseAdapter<P> {
    pub location: Option<P>,
    pub buttons: HashMap<u32, (ButtonState, Option<TrackedTouch<P>>)>,
}

impl<P> MouseAdapter<P> {
    /// The primary mouse button (the left one).
    pub const PRIMARY_BUTTON: u32 = 0;

    pub fn new() -> (r: MouseAdapter<P>)
        ensures
            r.location is None,
            r.buttons@ == Map::<u32, (ButtonState, Option<TrackedTouch<P>>)>::empty(),
    {
        MouseAdapter { location: None, buttons: HashMap::new() }
    }
}

/// The state that `button` had before a report: released when it was never seen.
pub open spec fn cached_state<P>(
    buttons: Map<u32, (ButtonState, Option<TrackedTouch<P>>)>,
    button: u32,
) -> ButtonState {
    if buttons.contains_key(button) {
        buttons[button].0
    } else {
        ButtonState::Released
    }
}

/// Handles a button report: `state` of `button` while the mouse is at `mouse_location`
/// (the adapter's location, or the default location when it has none); `in_bounds` tells
/// whether that location lies inside the viewport.
///
/// The button's recorded state becomes `state`. When the state changes: a press inside
/// the viewport starts following the button (and the primary button sends a press); a
/// release inside the viewport sends a release for the primary button and records the
/// end of its course; a release outside sends a cancellation for the primary button.
pub fn register_mouse_click<P: Copy>(
    adapter: &mut MouseAdapter<P>,
    state: ButtonState,
    button: MouseButtonCode,
    mouse_location: P,
    in_bounds: bool,
) -> (events: Vec<TouchEvent<P>>)
    requires
        ({
            let b = button_number(button);
            let t = old(adapter).buttons@;
            (state == ButtonState::Released && cached_state(t, b) != state && !in_bounds) ==> (
            t.contains_key(b) && t[b].1 is Some)
        }),
    ensures
        final(adapter).location == old(adapter).location,
        ({
            let b = button_number(button);
            let t = old(adapter).buttons@;
            let is_primary = b == 0;
            let recorded = if t.contains_key(b) {
                t.insert(b, (state, t[b].1))
            } else {
                t
            };
            if cached_state(t, b) == state {
                &&& final(adapter).buttons@ == recorded
                &&& events@.len() == 0
            } else {
                match state {
                    ButtonState::Pressed => if in_bounds {
                        &&& final(adapter).buttons@ == t.insert(
                            b,
                            (
                                state,
                                Some(
                                    TrackedTouch {
                                        start: mouse_location,
                                        current: mouse_location,
                                        end: None,
                                        cancelled: false,
                                    },
                                ),
                            ),
                        )
                        &&& events@ == if is_primary {
                            seq![TouchEvent { touch_type: TouchType::OnPress, location: Some(mouse_location) }]
                        } else {
                            Seq::<TouchEvent<P>>::empty()
                        }
                    } else {
                        &&& final(adapter).buttons@ == recorded
                        &&& events@.len() == 0
                    },
                    ButtonState::Released => if in_bounds {
                        &&& final(adapter).buttons@ == if is_primary && recorded.contains_key(b)
                            && recorded[b].1 is Some {
                            recorded.insert(
                                b,
                                (state, Some(TrackedTouch { end: Some(mouse_location), ..recorded[b].1.unwrap() })),
                            )
                        } else {
                            recorded
                        }
                        &&& events@ == if is_primary {
                            seq![TouchEvent { touch_type: TouchType::OnRelease, location: Some(mouse_location) }]
                        } else {
                            Seq::<TouchEvent<P>>::empty()
                        }
                    } else {
                        &&& final(adapter).buttons@ == recorded
                        &&& events@ == if is_primary {
                            seq![TouchEvent { touch_type: TouchType::Cancelled, location: None }]
                        } else {
                            Seq::<TouchEvent<P>>::empty()
                        }
                    },
                }
            }
        }),
{
    let b = crate::interaction::Interaction::from_mouse_button(button).0;
    let cached: ButtonState = match adapter.buttons.get(&b) {
        Some(entry) => entry.0,
        None => ButtonState::Released,
    };
    match adapter.buttons.get(&b) {
        Some(entry) => {
            let course = entry.1;
            adapter.buttons.insert(b, (state, course));
        },
        None => {},
    }
    let mut events: Vec<TouchEvent<P>> = Vec::new();
    let is_primary = b == MouseAdapter::<P>::PRIMARY_BUTTON;
    if cached != state {
        match state {
            ButtonState::Pressed => {
                if in_bounds {
                    if is_primary {
                        events.push(
                            TouchEvent { touch_type: TouchType::OnPress, location: Some(mouse_location) },
                        );
                    }
                    adapter.buttons.insert(b, (state, Some(TrackedTouch::new(mouse_location))));
                }
            },
            ButtonState::Released => {
                if in_bounds {
                    if is_primary {
                        events.push(
                            TouchEvent {
                                touch_type: TouchType::OnRelease,
                                location: Some(mouse_location),
                            },
                        );
                        match adapter.buttons.get(&b) {
                            Some(entry) => {
                                match entry.1 {
                                    Some(course) => {
                                        let mut ended = course;
                                        ended.end = Some(mouse_location);
                                        let s = entry.0;
                                        adapter.buttons.insert(b, (s, Some(ended)));
                                    },
                                    None => {},
                                }
                            },
                            None => {},
                        }
                    }
                } else {
                    if is_primary {
                        events.push(TouchEvent { touch_type: TouchType::Cancelled, location: None });
                    }
                    // The course is looked up (and must exist) but only a copy of it is
                    // marked as cancelled, so the recorded course stays as it is.
                    let entry = *adapter.buttons.get(&b).unwrap();
                    let mut course = entry.1.unwrap();
                    course.cancelled = true;
                }
            },
        }
    }
    events
}

/// A button's record once the mouse is at `location`: a followed course moves there.
pub open spec fn moved_to<P>(
    entry: (ButtonState, Option<TrackedTouch<P>>),
    location: P,
) -> (ButtonState, Option<TrackedTouch<P>>) {
    (
        entry.0,
        match entry.1 {
            Some(t) => Some(TrackedTouch { current: location, ..t }),
            None => None,
        },
    )
}

/// Records the mouse at `position` and moves the course of every followed button there.
pub fn set_mouse_location<P: Copy>(adapter: &mut MouseAdapter<P>, position: P)
    ensures
        final(adapter).location == Some(position),
        final(adapter).buttons@.dom() == old(adapter).buttons@.dom(),
        forall|b: u32|
            #[trigger] old(adapter).buttons@.contains_key(b) ==> final(adapter).buttons@[b]
                == moved_to(old(adapter).buttons@[b], position),
{
    adapter.location = Some(position);
    let ghost start = adapter.buttons@;
    let ghost order = spec_keys_iter(&adapter.buttons).remaining().unref();
    let mut keys: Vec<u32> = Vec::new();
    for k in it: adapter.buttons.keys()
        invariant
            it.seq() == spec_keys_iter(&adapter.buttons).remaining(),
            order == it.seq().unref(),
            keys@ == order.take(it.index() as int),
            adapter.location == Some(position),
            adapter.buttons@ == start,
    {
        proof {
            assert(order.take(it.index() + 1) == order.take(it.index() as int).push(*k));
        }
        keys.push(*k);
    }
    proof {
        assert(keys@ == order);
        assert(order.to_set() == start.dom());
        assert(order.no_duplicates());
    }
    let n = keys.len();
    let mut i: usize = 0;
    while i < n
        invariant
            n == keys@.len(),
            keys@ == order,
            order.to_set() == start.dom(),
            order.no_duplicates(),
            0 <= i <= n,
            adapter.buttons@.dom() == start.dom(),
            adapter.location == Some(position),
            forall|j: int| 0 <= j < i ==> #[trigger] adapter.buttons@[keys@[j]] == moved_to(start[keys@[j]], position),
            forall|b: u32| start.contains_key(b) && !keys@.take(i as int).contains(b) ==> #[trigger] adapter.buttons@[b] == start[b],
        decreases n - i,
    {
        let b = keys[i];
        proof {
            assert(order.to_set().contains(b));
            assert(!keys@.take(i as int).contains(b));
        }
        let entry = *adapter.buttons.get(&b).unwrap();
        let moved = match entry.1 {
            Some(course) => {
                let mut c = course;
                c.current = position;
                (entry.0, Some(c))
            },
            None => entry,
        };
        adapter.buttons.insert(b, moved);
        proof {
            assert forall|j: int| 0 <= j < i + 1 implies #[trigger] adapter.buttons@[keys@[j]] == moved_to(start[keys@[j]], position) by {
                if j < i {
                    assert(keys@[j] != b);
                }
            }
            assert forall|c: u32| start.contains_key(c) && !keys@.take(i + 1).contains(c) implies #[trigger] adapter.buttons@[c] == start[c] by {
                assert(keys@.take(i + 1)[i as int] == b);
                assert(c != b);
                assert(!keys@.take(i as int).contains(c)) by {
                    if keys@.take(i as int).contains(c) {
                        let w = choose|w: int| 0 <= w < i && keys@.take(i as int)[w] == c;
                        assert(keys@.take(i + 1)[w] == c);
                    }
                }
            }
        }
        i = i + 1;
    }
    proof {
        assert forall|b: u32| #[trigger] start.contains_key(b) implies adapter.buttons@[b] == moved_to(start[b], position) by {
            assert(order.to_set().contains(b));
            let w = choose|w: int| 0 <= w < order.len() && order[w] == b;
            assert(keys@[w] == b);
        }
    }
}


/// A button's record once the mouse left the viewport: a followed course is cancelled.
pub open spec fn cancelled_course<P>(
    entry: (ButtonState, Option<TrackedTouch<P>>),
) -> (ButtonState, Option<TrackedTouch<P>>) {
    (
        entry.0,
        match entry.1 {
            Some(t) => Some(TrackedTouch { cancelled: true, ..t }),
            None => None,
        },
    )
}

/// Handles the mouse leaving the viewport: every followed button course is marked as
/// cancelled, and a cancellation (with no location) is sent.
pub fn cancel_mouse<P: Copy>(adapter: &mut MouseAdapter<P>) -> (event: TouchEvent<P>)
    ensures
        event == (TouchEvent::<P> { touch_type: TouchType::Cancelled, location: None }),
        final(adapter).location == old(adapter).location,
        final(adapter).buttons@.dom() == old(adapter).buttons@.dom(),
        forall|b: u32|
            #[trigger] old(adapter).buttons@.contains_key(b) ==> final(adapter).buttons@[b]
                == cancelled_course(old(adapter).buttons@[b]),
{
    let ghost location = adapter.location;
    let ghost start = adapter.buttons@;
    let ghost order = spec_keys_iter(&adapter.buttons).remaining().unref();
    let mut keys: Vec<u32> = Vec::new();
    for k in it: adapter.buttons.keys()
        invariant
            it.seq() == spec_keys_iter(&adapter.buttons).remaining(),
            order == it.seq().unref(),
            keys@ == order.take(it.index() as int),
            adapter.location == location,
            adapter.buttons@ == start,
    {
        proof {
            assert(order.take(it.index() + 1) == order.take(it.index() as int).push(*k));
        }
        keys.push(*k);
    }
    proof {
        assert(keys@ == order);
        assert(order.to_set() == start.dom());
        assert(order.no_duplicates());
    }
    let n = keys.len();
    let mut i: usize = 0;
    while i < n
        invariant
            n == keys@.len(),
            keys@ == order,
            order.to_set() == start.dom(),
            order.no_duplicates(),
            0 <= i <= n,
            adapter.buttons@.dom() == start.dom(),
            adapter.location == location,
            forall|j: int| 0 <= j < i ==> #[trigger] adapter.buttons@[keys@[j]] == cancelled_course(start[keys@[j]]),
            forall|b: u32| start.contains_key(b) && !keys@.take(i as int).contains(b) ==> #[trigger] adapter.buttons@[b] == start[b],
        decreases n - i,
    {
        let b = keys[i];
        proof {
            assert(order.to_set().contains(b));
            assert(!keys@.take(i as int).contains(b));
        }
        let entry = *adapter.buttons.get(&b).unwrap();
        let cancelled = match entry.1 {
            Some(course) => {
                let mut c = course;
                c.cancelled = true;
                (entry.0, Some(c))
            },
            None => entry,
        };
        adapter.buttons.insert(b, cancelled);
        proof {
            assert forall|j: int| 0 <= j < i + 1 implies #[trigger] adapter.buttons@[keys@[j]] == cancelled_course(start[keys@[j]]) by {
                if j < i {
                    assert(keys@[j] != b);
                }
            }
            assert forall|c: u32| start.contains_key(c) && !keys@.take(i + 1).contains(c) implies #[trigger] adapter.buttons@[c] == start[c] by {
                assert(keys@.take(i + 1)[i as int] == b);
                assert(c != b);
                assert(!keys@.take(i as int).contains(c)) by {
                    if keys@.take(i as int).contains(c) {
                        let w = choose|w: int| 0 <= w < i && keys@.take(i as int)[w] == c;
                        assert(keys@.take(i + 1)[w] == c);
                    }
                }
            }
        }
        i = i + 1;
    }
    proof {
        assert forall|b: u32| #[trigger] start.contains_key(b) implies adapter.buttons@[b] == cancelled_course(start[b]) by {
            assert(order.to_set().contains(b));
            let w = choose|w: int| 0 <= w < order.len() && order[w] == b;
            assert(keys@[w] == b);
        }
    }
    TouchEvent { touch_type: TouchType::Cancelled, location: None }
}

/// Moving the mouse moves the current location of a followed button course and nothing
/// else; leaving the viewport marks a followed course as cancelled and nothing else.
/// Neither changes a button's state.
pub proof fn lemma_mouse_courses<P>(entry: (ButtonState, Option<TrackedTouch<P>>), location: P)
    ensures
        moved_to(entry, location).0 == entry.0,
        cancelled_course(entry).0 == entry.0,
        entry.1 is None ==> moved_to(entry, location).1 is None && cancelled_course(entry).1 is None,
        entry.1 matches Some(t) ==> (moved_to(entry, location).1 matches Some(u) && u.current
            == location && u.start == t.start && u.end == t.end && u.cancelled == t.cancelled),
        entry.1 matches Some(t) ==> (cancelled_course(entry).1 matches Some(u) && u.cancelled
            && u.start == t.start && u.current == t.current && u.end == t.end),
{
}

/// A touch event becomes an interaction event of its own phase: a press starts, a move
/// moves, a release ends and a cancellation cancels; distinct touch types never report
/// the same phase.
pub proof fn lemma_touch_phases()
    ensures
        phase_of(TouchType::OnPress) == InteractionPhase::Started,
        phase_of(TouchType::OnMove) == InteractionPhase::Moved,
        phase_of(TouchType::OnRelease) == InteractionPhase::Ended,
        phase_of(TouchType::Cancelled) == InteractionPhase::Cancelled,
        forall|a: TouchType, b: TouchType| #[trigger] phase_of(a) == #[trigger] phase_of(b) ==> a == b,
{
}

} // verus!
