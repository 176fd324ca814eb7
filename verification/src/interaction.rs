//! Pointer and touch interactions: which interaction is primary, where each one is,
//! and how the primary interaction focuses, activates, triggers and toggles elements.
//!
//! Locations are kept generic (`P`): this module only stores and moves them. Deciding
//! whether a location lies inside an element is geometry that the caller does.

use std::collections::HashMap;

use vstd::prelude::*;

use crate::focus::FocusedEntity;
use crate::touch::ButtonState;

verus! {

broadcast use vstd::std_specs::hash::group_hash_axioms;

/// Identifier of one interaction (a mouse button or a touch).
#[derive(Copy, Clone, PartialEq, Eq, Structural, Debug, Hash, Default)]
pub struct Interaction(pub u32);

impl From<u64> for Interaction {
    fn from(value: u64) -> (r: Interaction) {
        Interaction(value as u32)
    }
}

impl vstd::std_specs::convert::FromSpecImpl<u64> for Interaction {
    open spec fn obeys_from_spec() -> bool {
        true
    }

    open spec fn from_spec(value: u64) -> Interaction {
        Interaction(value as u32)
    }
}

/// A mouse button, as the windowing layer reports it.
#[derive(Copy, Clone, PartialEq, Eq, Structural, Debug)]
pub enum MouseButtonCode {
    Left,
    Right,
    Middle,
    Other(u16),
}

/// Interaction number of a mouse button: left 0, right 1, middle 2, others from 3 on.
pub open spec fn button_number(button: MouseButtonCode) -> u32 {
    match button {
        MouseButtonCode::Left => 0,
        MouseButtonCode::Right => 1,
        MouseButtonCode::Middle => 2,
        MouseButtonCode::Other(v) => (3 + v) as u32,
    }
}

impl Interaction {
    /// The interaction of a mouse button.
    pub fn from_mouse_button(button: MouseButtonCode) -> (r: Interaction)
        ensures
            r.0 == button_number(button),
    {
        match button {
            MouseButtonCode::Left => Interaction(0),
            MouseButtonCode::Right => Interaction(1),
            MouseButtonCode::Middle => Interaction(2),
            MouseButtonCode::Other(v) => Interaction(3 + v as u32),
        }
    }
}

/// Source device of an interaction.
#[derive(Copy, Clone, PartialEq, Eq, Structural, Debug)]
pub enum InteractionDevice {
    Mouse,
    Touchscreen,
}

/// Which mouse button acts as the primary one.
#[derive(Copy, Clone, PartialEq, Eq, Structural, Debug)]
pub struct PrimaryMouseButton(pub Interaction);

impl Default for PrimaryMouseButton {
    fn default() -> (r: PrimaryMouseButton)
        ensures
            r.0 == Interaction(0),
    {
        PrimaryMouseButton(Interaction::from_mouse_button(MouseButtonCode::Left))
    }
}

/// The interaction currently driving the interface, if any.
#[derive(Copy, Clone, PartialEq, Eq, Structural, Debug, Default)]
pub struct PrimaryInteraction(pub Option<Interaction>);

/// Set for the frame in which an element was triggered.
#[derive(Copy, Clone, PartialEq, Eq, Structural, Debug, Default)]
pub struct Triggered(pub bool);

impl Triggered {
    pub fn active(&self) -> (r: bool)
        ensures
            r == self.0,
    {
        self.0
    }
}

/// Flips each time an element is triggered.
#[derive(Copy, Clone, PartialEq, Eq, Structural, Debug, Default)]
pub struct Toggled(pub bool);

impl Toggled {
    pub fn active(&self) -> (r: bool)
        ensures
            r == self.0,
    {
        self.0
    }
}

/// Set while an interaction that started on an element is under way.
#[derive(Copy, Clone, PartialEq, Eq, Structural, Debug, Default)]
pub struct ActiveInteraction(pub bool);

impl ActiveInteraction {
    pub fn active(&self) -> (r: bool)
        ensures
            r == self.0,
    {
        self.0
    }
}

/// Phase of an interaction.
#[derive(Copy, Clone, PartialEq, Eq, Structural, Debug)]
pub enum InteractionPhase {
    Started,
    Moved,
    Ended,
    Cancelled,
}

/// Where an interaction started, where it is, and where it ended.
#[derive(Copy, Clone, PartialEq, Eq, Structural, Debug)]
pub struct InteractionLocation<P> {
    pub start: P,
    pub current: P,
    pub end: Option<P>,
}

impl<P: Copy> InteractionLocation<P> {
    pub fn new(start: P) -> (r: InteractionLocation<P>)
        ensures
            r == (InteractionLocation { start, current: start, end: None }),
    {
        InteractionLocation { start, current: start, end: None }
    }
}

/// The interaction an element follows, if any.
#[derive(Copy, Clone, PartialEq, Eq, Structural, Debug)]
pub struct InteractionTracker<P> {
    pub location: Option<InteractionLocation<P>>,
}

/// Latest phase of each interaction, by interaction number.
pub struct InteractionPhases(pub HashMap<u32, InteractionPhase>);

/// Location of each interaction, by interaction number.
pub struct InteractionLocations<P>(pub HashMap<u32, InteractionLocation<P>>);

/// One reported interaction step; `location` is already in interface coordinates and
/// offset by the viewport position.
#[derive(Copy, Clone, PartialEq, Eq, Structural, Debug)]
pub struct InteractionEvent<P> {
    pub device: InteractionDevice,
    pub location: P,
    pub phase: InteractionPhase,
    pub interaction: Interaction,
}

impl<P> InteractionEvent<P> {
    pub fn new(
        device: InteractionDevice,
        location: P,
        phase: InteractionPhase,
        interaction: Interaction,
    ) -> (r: InteractionEvent<P>)
        ensures
            r == (InteractionEvent { device, location, phase, interaction }),
    {
        InteractionEvent { device, location, phase, interaction }
    }
}

/// The primary interaction after `event`: an event that starts while no interaction is
/// primary makes its interaction primary, if it is a touch or the primary mouse button.
pub open spec fn primary_after<P>(
    primary: Option<Interaction>,
    primary_mouse: Interaction,
    event: InteractionEvent<P>,
) -> Option<Interaction> {
    let eligible = match event.device {
        InteractionDevice::Mouse => event.interaction == primary_mouse,
        InteractionDevice::Touchscreen => true,
    };
    if eligible && primary is None && event.phase == InteractionPhase::Started {
        Some(event.interaction)
    } else {
        primary
    }
}

/// The following locations after `event`: a start records a fresh location, a move or a
/// cancellation updates the current location, an end records the end location; moves,
/// cancellations and ends of unknown interactions change nothing.
pub open spec fn locations_after<P>(
    locations: Map<u32, InteractionLocation<P>>,
    event: InteractionEvent<P>,
) -> Map<u32, InteractionLocation<P>> {
    let id = event.interaction.0;
    match event.phase {
        InteractionPhase::Started => locations.insert(
            id,
            InteractionLocation { start: event.location, current: event.location, end: None },
        ),
        InteractionPhase::Moved | InteractionPhase::Cancelled => if locations.contains_key(id) {
            locations.insert(id, InteractionLocation { current: event.location, ..locations[id] })
        } else {
            locations
        },
        InteractionPhase::Ended => if locations.contains_key(id) {
            locations.insert(id, InteractionLocation { end: Some(event.location), ..locations[id] })
        } else {
            locations
        },
    }
}

/// State of the interaction bookkeeping: primary interaction, phases, locations.
pub struct InteractionState<P> {
    pub primary: Option<Interaction>,
    pub phases: Map<u32, InteractionPhase>,
    pub locations: Map<u32, InteractionLocation<P>>,
}

/// The bookkeeping after one event.
pub open spec fn state_after_event<P>(
    state: InteractionState<P>,
    primary_mouse: Interaction,
    event: InteractionEvent<P>,
) -> InteractionState<P> {
    InteractionState {
        primary: primary_after(state.primary, primary_mouse, event),
        phases: state.phases.insert(event.interaction.0, event.phase),
        locations: locations_after(state.locations, event),
    }
}

/// The bookkeeping after a sequence of events, applied in order.
pub open spec fn state_after_events<P>(
    state: InteractionState<P>,
    primary_mouse: Interaction,
    events: Seq<InteractionEvent<P>>,
) -> InteractionState<P>
    decreases events.len(),
{
    if events.len() == 0 {
        state
    } else {
        state_after_event(
            state_after_events(state, primary_mouse, events.drop_last()),
            primary_mouse,
            events.last(),
        )
    }
}

/// Records a frame's interaction events: primary interaction, phases and locations.
pub fn update_interactions<P: Copy>(
    primary: &mut PrimaryInteraction,
    events: &Vec<InteractionEvent<P>>,
    primary_mouse: &PrimaryMouseButton,
    locations: &mut InteractionLocations<P>,
    phases: &mut InteractionPhases,
)
    ensures
        ({
            let after = state_after_events(
                InteractionState {
                    primary: old(primary).0,
                    phases: old(phases).0@,
                    locations: old(locations).0@,
                },
                primary_mouse.0,
                events@,
            );
            &&& final(primary).0 == after.primary
            &&& final(phases).0@ == after.phases
            &&& final(locations).0@ == after.locations
        }),
{
    let ghost start = InteractionState {
        primary: primary.0,
        phases: phases.0@,
        locations: locations.0@,
    };
    let mut i: usize = 0;
    while i < events.len()
        invariant
            0 <= i <= events@.len(),
            ({
                let after = state_after_events(start, primary_mouse.0, events@.take(i as int));
                &&& primary.0 == after.primary
                &&& phases.0@ == after.phases
                &&& locations.0@ == after.locations
            }),
        decreases events@.len() - i,
    {
        let event = events[i];
        let eligible = match event.device {
            InteractionDevice::Mouse => event.interaction == primary_mouse.0,
            InteractionDevice::Touchscreen => true,
        };
        if eligible && primary.0.is_none() && event.phase == InteractionPhase::Started {
            primary.0 = Some(event.interaction);
        }
        phases.0.insert(event.interaction.0, event.phase);
        match event.phase {
            InteractionPhase::Started => {
                locations.0.insert(event.interaction.0, InteractionLocation::new(event.location));
            },
            InteractionPhase::Moved | InteractionPhase::Cancelled => {
                match locations.0.get(&event.interaction.0) {
                    Some(loc) => {
                        let mut updated = *loc;
                        updated.current = event.location;
                        locations.0.insert(event.interaction.0, updated);
                    },
                    None => {},
                }
            },
            InteractionPhase::Ended => {
                match locations.0.get(&event.interaction.0) {
                    Some(loc) => {
                        let mut updated = *loc;
                        updated.end = Some(event.location);
                        locations.0.insert(event.interaction.0, updated);
                    },
                    None => {},
                }
            },
        }
        proof {
            assert(events@.take(i + 1).drop_last() == events@.take(i as int));
            assert(events@.take(i + 1).last() == events@[i as int]);
        }
        i = i + 1;
    }
    proof {
        assert(events@.take(events@.len() as int) == events@);
    }
}


/// The interaction state of one element.
#[derive(Copy, Clone, PartialEq, Eq, Structural, Debug)]
pub struct Interactable<P> {
    pub triggered: Triggered,
    pub toggled: Toggled,
    pub tracker: InteractionTracker<P>,
    pub active: ActiveInteraction,
}

impl<P> Interactable<P> {
    /// Not triggered, not toggled, tracking nothing, inactive.
    pub fn new() -> (r: Interactable<P>)
        ensures
            !r.triggered.0,
            !r.toggled.0,
            r.tracker.location is None,
            !r.active.0,
    {
        Interactable {
            triggered: Triggered(false),
            toggled: Toggled(false),
            tracker: InteractionTracker { location: None },
            active: ActiveInteraction(false),
        }
    }
}

/// An element that takes part in interactions: its entity id bits, whether it is
/// disabled, and its interaction state.
#[derive(Copy, Clone, PartialEq, Eq, Structural, Debug)]
pub struct InteractableEntry<P> {
    pub entity: u64,
    pub disabled: bool,
    pub interactable: Interactable<P>,
}

/// The focused entity after the primary interaction's `phase`: the grabbed element when
/// one was grabbed at the start, nothing when a start grabbed nothing, else unchanged.
/// Only a start can grab.
pub open spec fn focus_after(
    phase: InteractionPhase,
    focused: Option<u64>,
    grabbed: Option<u64>,
) -> Option<u64> {
    if phase == InteractionPhase::Started {
        grabbed
    } else {
        focused
    }
}

/// The entity that loses the interaction because the focus moves away from it.
pub open spec fn released_entity(
    phase: InteractionPhase,
    focused: Option<u64>,
    grabbed: Option<u64>,
) -> Option<u64> {
    if phase == InteractionPhase::Started {
        match grabbed {
            Some(g) => if focused is Some && focused != Some(g) {
                focused
            } else {
                None
            },
            None => focused,
        }
    } else {
        None
    }
}

/// `i` without following interaction and inactive.
pub open spec fn released<P>(i: Interactable<P>) -> Interactable<P> {
    Interactable { tracker: InteractionTracker { location: None }, active: ActiveInteraction(false), ..i }
}

/// The focused element's state after the primary interaction's `phase` at `location`;
/// `end_inside` tells whether the end location lies inside the element.
pub open spec fn after_phase<P>(
    i: Interactable<P>,
    phase: InteractionPhase,
    location: InteractionLocation<P>,
    end_inside: bool,
) -> Interactable<P> {
    match phase {
        InteractionPhase::Started => Interactable {
            tracker: InteractionTracker {
                location: Some(
                    InteractionLocation { start: location.start, current: location.start, end: None },
                ),
            },
            active: ActiveInteraction(true),
            ..i
        },
        InteractionPhase::Moved => match i.tracker.location {
            Some(t) => Interactable {
                tracker: InteractionTracker {
                    location: Some(InteractionLocation { current: location.current, ..t }),
                },
                ..i
            },
            None => i,
        },
        InteractionPhase::Ended => if end_inside {
            match i.tracker.location {
                Some(t) => Interactable {
                    triggered: Triggered(true),
                    toggled: Toggled(!i.toggled.0),
                    tracker: InteractionTracker {
                        location: Some(InteractionLocation { end: location.end, ..t }),
                    },
                    active: ActiveInteraction(false),
                },
                None => Interactable { active: ActiveInteraction(false), ..i },
            }
        } else {
            released(i)
        },
        InteractionPhase::Cancelled => released(i),
    }
}

/// An element's entry after resolving the primary interaction: disabled elements are left
/// alone; the element losing the focus is released; the focused element follows the phase.
pub open spec fn resolved_entry<P>(
    e: InteractableEntry<P>,
    phase: InteractionPhase,
    location: InteractionLocation<P>,
    focused: Option<u64>,
    grabbed: Option<u64>,
    end_inside: bool,
) -> InteractableEntry<P> {
    if e.disabled {
        e
    } else {
        let i1 = if released_entity(phase, focused, grabbed) == Some(e.entity) {
            released(e.interactable)
        } else {
            e.interactable
        };
        let i2 = if focus_after(phase, focused, grabbed) == Some(e.entity) {
            after_phase(i1, phase, location, end_inside)
        } else {
            i1
        };
        InteractableEntry { interactable: i2, ..e }
    }
}

/// Whether some enabled element of `entries` is `entity`.
pub open spec fn has_enabled<P>(entries: Seq<InteractableEntry<P>>, entity: u64) -> bool {
    exists|i: int| 0 <= i < entries.len() && !entries[i].disabled && #[trigger] entries[i].entity == entity
}

/// Whether the primary interaction ends while an enabled element has the focus
/// (then its end location is needed).
pub open spec fn ends_on_enabled_focus<P>(
    phase: InteractionPhase,
    focused: Option<u64>,
    entries: Seq<InteractableEntry<P>>,
) -> bool {
    phase == InteractionPhase::Ended && focused is Some && has_enabled(entries, focused.unwrap())
}

/// Resolves the primary interaction against the interactable elements.
///
/// `grabbed` is, for an interaction that has just started, the enabled element whose
/// section contains the start location with the lowest layer (none when no section
/// contains it); it is ignored in other phases. `focused_contains_end` tells whether
/// the section of the currently focused element contains the end location.
///
/// The primary interaction stops being primary once it ended or was cancelled; the focus
/// moves as `focus_after` says; every element is updated as `resolved_entry` says.
pub fn resolve<P: Copy>(
    primary: &mut PrimaryInteraction,
    phases: &InteractionPhases,
    locations: &InteractionLocations<P>,
    focused_entity: &mut FocusedEntity,
    grabbed: Option<u64>,
    focused_contains_end: bool,
    interactables: &mut Vec<InteractableEntry<P>>,
)
    requires
        old(primary).0 matches Some(p) ==> {
            &&& phases.0@.contains_key(p.0)
            &&& locations.0@.contains_key(p.0)
            &&& ends_on_enabled_focus(phases.0@[p.0], old(focused_entity).entity, old(interactables)@)
                ==> locations.0@[p.0].end is Some
        },
    ensures
        match old(primary).0 {
            None => {
                &&& final(primary).0 is None
                &&& *final(focused_entity) == *old(focused_entity)
                &&& final(interactables)@ == old(interactables)@
            },
            Some(p) => {
                let phase = phases.0@[p.0];
                let location = locations.0@[p.0];
                &&& final(primary).0 == if phase == InteractionPhase::Ended || phase
                    == InteractionPhase::Cancelled {
                    None
                } else {
                    Some(p)
                }
                &&& final(focused_entity).entity == focus_after(
                    phase,
                    old(focused_entity).entity,
                    grabbed,
                )
                &&& final(interactables)@.len() == old(interactables)@.len()
                &&& forall|i: int|
                    0 <= i < old(interactables)@.len() ==> #[trigger] final(interactables)@[i]
                        == resolved_entry(
                        old(interactables)@[i],
                        phase,
                        location,
                        old(focused_entity).entity,
                        grabbed,
                        focused_contains_end,
                    )
            },
        },
{
    let prime = match primary.0 {
        Some(p) => p,
        None => {
            return ;
        },
    };
    let phase = *phases.0.get(&prime.0).unwrap();
    if phase == InteractionPhase::Ended || phase == InteractionPhase::Cancelled {
        primary.0 = None;
    }
    let location = *locations.0.get(&prime.0).unwrap();
    let grab = if phase == InteractionPhase::Started {
        grabbed
    } else {
        None
    };
    let previous = focused_entity.entity;
    let mut release: Option<u64> = None;
    match grab {
        Some(g) => {
            match previous {
                Some(f) => {
                    if f != g {
                        release = Some(f);
                    }
                },
                None => {},
            }
            focused_entity.entity = Some(g);
        },
        None => {
            if phase == InteractionPhase::Started {
                release = previous;
                focused_entity.entity = None;
            }
        },
    }
    let focused_now = focused_entity.entity;
    let ghost old_entries = interactables@;
    let n = interactables.len();
    let mut i: usize = 0;
    while i < n
        invariant
            n == old_entries.len(),
            interactables@.len() == n,
            0 <= i <= n,
            release == released_entity(phase, previous, grabbed),
            focused_now == focus_after(phase, previous, grabbed),
            ends_on_enabled_focus(phase, previous, old_entries) ==> location.end is Some,
            forall|j: int|
                0 <= j < i ==> #[trigger] interactables@[j] == resolved_entry(
                    old_entries[j],
                    phase,
                    location,
                    previous,
                    grabbed,
                    focused_contains_end,
                ),
            forall|j: int| i <= j < n ==> #[trigger] interactables@[j] == old_entries[j],
        decreases n - i,
    {
        let mut entry = interactables[i];
        if !entry.disabled {
            if release == Some(entry.entity) {
                entry.interactable.tracker.location = None;
                entry.interactable.active = ActiveInteraction(false);
            }
            if focused_now == Some(entry.entity) {
                match phase {
                    InteractionPhase::Started => {
                        entry.interactable.tracker.location = Some(
                            InteractionLocation::new(location.start),
                        );
                        entry.interactable.active = ActiveInteraction(true);
                    },
                    InteractionPhase::Moved => {
                        match entry.interactable.tracker.location {
                            Some(following) => {
                                let mut t = following;
                                t.current = location.current;
                                entry.interactable.tracker.location = Some(t);
                            },
                            None => {},
                        }
                    },
                    InteractionPhase::Ended => {
                        proof {
                            assert(old_entries[i as int].entity == entry.entity);
                            assert(has_enabled(old_entries, entry.entity));
                        }
                        let end = location.end.unwrap();
                        entry.interactable.active = ActiveInteraction(false);
                        if focused_contains_end {
                            match entry.interactable.tracker.location {
                                Some(following) => {
                                    let mut t = following;
                                    entry.interactable.triggered = Triggered(true);
                                    entry.interactable.toggled = Toggled(
                                        !entry.interactable.toggled.0,
                                    );
                                    t.end = Some(end);
                                    entry.interactable.tracker.location = Some(t);
                                },
                                None => {},
                            }
                        } else {
                            entry.interactable.tracker.location = None;
                        }
                    },
                    InteractionPhase::Cancelled => {
                        entry.interactable.tracker.location = None;
                        entry.interactable.active = ActiveInteraction(false);
                    },
                }
            }
        }
        interactables.set(i, entry);
        i = i + 1;
    }
}

/// Whether cleanup stops `e` from tracking its interaction: it following one that ended,
/// or it is disabled while tracking.
pub open spec fn cleanup_releases<P>(e: InteractableEntry<P>) -> bool {
    match e.interactable.tracker.location {
        Some(t) => t.end is Some || e.disabled,
        None => false,
    }
}

/// An element's entry after the end-of-frame cleanup: no longer triggered; a finished
/// (or disabled) tracking is dropped; an element tracking nothing becomes inactive.
pub open spec fn cleaned_entry<P>(e: InteractableEntry<P>) -> InteractableEntry<P> {
    let i = Interactable { triggered: Triggered(false), ..e.interactable };
    let i2 = if cleanup_releases(e) {
        Interactable { tracker: InteractionTracker { location: None }, ..i }
    } else if e.interactable.tracker.location is None {
        Interactable { active: ActiveInteraction(false), ..i }
    } else {
        i
    };
    InteractableEntry { interactable: i2, ..e }
}

/// End-of-frame cleanup: clears the triggers, drops finished trackings (and the focus of
/// an element whose tracking is dropped), and deactivates elements that track nothing.
pub fn cleanup<P: Copy>(
    interactables: &mut Vec<InteractableEntry<P>>,
    focused_entity: &mut FocusedEntity,
)
    ensures
        final(interactables)@.len() == old(interactables)@.len(),
        forall|i: int|
            0 <= i < old(interactables)@.len() ==> #[trigger] final(interactables)@[i]
                == cleaned_entry(old(interactables)@[i]),
        final(focused_entity).entity == if (old(focused_entity).entity matches Some(f) && exists|
            i: int,
        |
            0 <= i < old(interactables)@.len() && #[trigger] old(interactables)@[i].entity == f
                && cleanup_releases(old(interactables)@[i])) {
            None
        } else {
            old(focused_entity).entity
        },
{
    let ghost old_entries = interactables@;
    let ghost old_focus = focused_entity.entity;
    let n = interactables.len();
    let mut i: usize = 0;
    while i < n
        invariant
            n == old_entries.len(),
            interactables@.len() == n,
            0 <= i <= n,
            forall|j: int| 0 <= j < i ==> #[trigger] interactables@[j] == cleaned_entry(old_entries[j]),
            forall|j: int| i <= j < n ==> #[trigger] interactables@[j] == old_entries[j],
            focused_entity.entity == if (old_focus matches Some(f) && exists|j: int|
                0 <= j < i && #[trigger] old_entries[j].entity == f && cleanup_releases(
                    old_entries[j],
                )) {
                None
            } else {
                old_focus
            },
        decreases n - i,
    {
        let mut entry = interactables[i];
        entry.interactable.triggered = Triggered(false);
        match entry.interactable.tracker.location {
            Some(t) => {
                if t.end.is_some() || entry.disabled {
                    entry.interactable.tracker.location = None;
                    match focused_entity.entity {
                        Some(focused) => {
                            if entry.entity == focused {
                                focused_entity.entity = None;
                            }
                        },
                        None => {},
                    }
                }
            },
            None => {
                if entry.interactable.active.active() {
                    entry.interactable.active = ActiveInteraction(false);
                }
            },
        }
        interactables.set(i, entry);
        i = i + 1;
    }
}

/// The mouse location and the last reported state of each button (by button number).
pub struct MouseAdapter<P> {
    pub location: P,
    pub button_cache: HashMap<u32, ButtonState>,
}

impl<P> MouseAdapter<P> {
    pub fn new(location: P) -> (r: MouseAdapter<P>)
        ensures
            r.location == location,
            r.button_cache@ == Map::<u32, ButtonState>::empty(),
    {
        MouseAdapter { location, button_cache: HashMap::new() }
    }

    pub fn set_location(&mut self, location: P)
        ensures
            final(self).location == location,
            final(self).button_cache@ == old(self).button_cache@,
    {
        self.location = location;
    }

    /// Records `value` for `button`; returns whether it differs from the state recorded
    /// before (always the case for a button never reported).
    pub fn cache_invalid(&mut self, button: MouseButtonCode, value: ButtonState) -> (r: bool)
        ensures
            final(self).button_cache@ == old(self).button_cache@.insert(button_number(button), value),
            final(self).location == old(self).location,
            r == (!old(self).button_cache@.contains_key(button_number(button)) || old(
                self,
            ).button_cache@[button_number(button)] != value),
    {
        let b = Interaction::from_mouse_button(button).0;
        match self.button_cache.insert(b, value) {
            Some(old) => old != value,
            None => true,
        }
    }
}

/// A press that starts on an enabled element and ends inside it triggers the element,
/// flips its toggle and leaves it inactive; the end-of-frame cleanup then clears the
/// trigger and drops the finished tracking.
pub proof fn lemma_press_inside_triggers<P>(
    e: InteractableEntry<P>,
    start: InteractionLocation<P>,
    end: InteractionLocation<P>,
    focused: Option<u64>,
)
    requires
        !e.disabled,
        end.end is Some,
    ensures
        ({
            let pressed = resolved_entry(e, InteractionPhase::Started, start, focused, Some(e.entity), false);
            let released_inside = resolved_entry(
                pressed,
                InteractionPhase::Ended,
                end,
                Some(e.entity),
                None,
                true,
            );
            let cleaned = cleaned_entry(released_inside);
            &&& pressed.interactable.active.0
            &&& released_inside.interactable.triggered.0
            &&& released_inside.interactable.toggled.0 == !e.interactable.toggled.0
            &&& !released_inside.interactable.active.0
            &&& cleanup_releases(released_inside)
            &&& !cleaned.interactable.triggered.0
            &&& cleaned.interactable.tracker.location is None
            &&& cleaned.interactable.toggled == released_inside.interactable.toggled
        }),
{
}

/// A press that ends outside the element neither triggers it nor flips its toggle, and
/// drops its tracking.
pub proof fn lemma_press_outside_does_not_trigger<P>(
    e: InteractableEntry<P>,
    start: InteractionLocation<P>,
    end: InteractionLocation<P>,
    focused: Option<u64>,
)
    requires
        !e.disabled,
        !e.interactable.triggered.0,
    ensures
        ({
            let pressed = resolved_entry(e, InteractionPhase::Started, start, focused, Some(e.entity), false);
            let released_outside = resolved_entry(
                pressed,
                InteractionPhase::Ended,
                end,
                Some(e.entity),
                None,
                false,
            );
            &&& !released_outside.interactable.triggered.0
            &&& released_outside.interactable.toggled == e.interactable.toggled
            &&& released_outside.interactable.tracker.location is None
            &&& !released_outside.interactable.active.0
        }),
{
}

/// Disabled elements are never changed by resolution.
pub proof fn lemma_disabled_untouched<P>(
    e: InteractableEntry<P>,
    phase: InteractionPhase,
    location: InteractionLocation<P>,
    focused: Option<u64>,
    grabbed: Option<u64>,
    end_inside: bool,
)
    requires
        e.disabled,
    ensures
        resolved_entry(e, phase, location, focused, grabbed, end_inside) == e,
{
}

/// Only a start makes an interaction primary, and an interaction already primary stays
/// primary through every event.
pub proof fn lemma_primary_only_from_start<P>(
    primary: Option<Interaction>,
    primary_mouse: Interaction,
    event: InteractionEvent<P>,
)
    ensures
        primary is None && primary_after(primary, primary_mouse, event) is Some
            ==> event.phase == InteractionPhase::Started,
        primary is Some ==> primary_after(primary, primary_mouse, event) == primary,
{
}

/// A start that grabs nothing takes the focus away; one that grabs an element gives it
/// the focus and releases the element focused before.
pub proof fn lemma_start_moves_focus(focused: Option<u64>, grabbed: Option<u64>)
    ensures
        focus_after(InteractionPhase::Started, focused, grabbed) == grabbed,
        grabbed is None ==> released_entity(InteractionPhase::Started, focused, grabbed) == focused,
        (grabbed is Some && focused is Some && focused != grabbed) ==> released_entity(
            InteractionPhase::Started,
            focused,
            grabbed,
        ) == focused,
{
}

/// While the primary interaction moves, the focused enabled element that follows it
/// follows the pointer: its followed course keeps its start and end and has the
/// interaction's current location; it stays as active, triggered and toggled as it was.
pub proof fn lemma_moved_focus_follows_pointer<P>(
    e: InteractableEntry<P>,
    location: InteractionLocation<P>,
    grabbed: Option<u64>,
    end_inside: bool,
)
    requires
        !e.disabled,
        e.interactable.tracker.location is Some,
    ensures
        ({
            let t = e.interactable.tracker.location.unwrap();
            let r = resolved_entry(
                e,
                InteractionPhase::Moved,
                location,
                Some(e.entity),
                grabbed,
                end_inside,
            );
            &&& r.interactable.tracker.location matches Some(u) && u.start == t.start && u.current
                == location.current && u.end == t.end
            &&& r.interactable.active == e.interactable.active
            &&& r.interactable.triggered == e.interactable.triggered
            &&& r.interactable.toggled == e.interactable.toggled
            &&& r.entity == e.entity
            &&& r.disabled == e.disabled
        }),
{
}

/// A move of the primary interaction changes no element other than the focused one, and
/// does not move the focus.
pub proof fn lemma_moved_leaves_others<P>(
    e: InteractableEntry<P>,
    location: InteractionLocation<P>,
    focused: Option<u64>,
    grabbed: Option<u64>,
    end_inside: bool,
)
    requires
        focused != Some(e.entity),
    ensures
        resolved_entry(e, InteractionPhase::Moved, location, focused, grabbed, end_inside) == e,
        focus_after(InteractionPhase::Moved, focused, grabbed) == focused,
{
}

/// When no interaction is primary, a start from the touchscreen makes its interaction
/// primary, and so does a start of the primary mouse button; a start of another mouse
/// button does not. Each event records its phase for its interaction.
pub proof fn lemma_starts_become_primary<P>(
    state: InteractionState<P>,
    primary_mouse: Interaction,
    event: InteractionEvent<P>,
)
    requires
        state.primary is None,
        event.phase == InteractionPhase::Started,
    ensures
        event.device == InteractionDevice::Touchscreen ==> state_after_events(
            state,
            primary_mouse,
            seq![event],
        ).primary == Some(event.interaction),
        event.device == InteractionDevice::Mouse ==> (state_after_events(
            state,
            primary_mouse,
            seq![event],
        ).primary == if event.interaction == primary_mouse {
            Some(event.interaction)
        } else {
            None
        }),
        state_after_events(state, primary_mouse, seq![event]).phases[event.interaction.0]
            == InteractionPhase::Started,
{
    lemma_one_event(state, primary_mouse, event);
}

/// Each event is recorded for its own interaction: its phase, and its location, which
/// starts a fresh course on a start, becomes the current location on a move or a
/// cancellation, and the end location on an end of a known interaction.
pub proof fn lemma_event_recorded<P>(
    state: InteractionState<P>,
    primary_mouse: Interaction,
    event: InteractionEvent<P>,
)
    ensures
        ({
            let after = state_after_events(state, primary_mouse, seq![event]);
            let id = event.interaction.0;
            &&& after.phases.contains_key(id)
            &&& after.phases[id] == event.phase
            &&& event.phase == InteractionPhase::Started ==> after.locations.contains_key(id)
                && after.locations[id].start == event.location && after.locations[id].current
                == event.location && after.locations[id].end is None
            &&& (event.phase == InteractionPhase::Moved || event.phase == InteractionPhase::Cancelled)
                && state.locations.contains_key(id) ==> after.locations.contains_key(id)
                && after.locations[id].start == state.locations[id].start
                && after.locations[id].current == event.location && after.locations[id].end
                == state.locations[id].end
            &&& event.phase == InteractionPhase::Ended && state.locations.contains_key(id)
                ==> after.locations.contains_key(id) && after.locations[id].start
                == state.locations[id].start && after.locations[id].current
                == state.locations[id].current && after.locations[id].end == Some(event.location)
            &&& forall|k: u32| k != id ==> after.locations.contains_key(k)
                == state.locations.contains_key(k) && (state.locations.contains_key(k)
                ==> after.locations[k] == state.locations[k])
        }),
{
    lemma_one_event(state, primary_mouse, event);
}

/// A start grabbing an enabled element focuses it, starts following the interaction at
/// its start location and makes it active, leaving its trigger and toggle alone.
pub proof fn lemma_start_grabs_element<P>(
    e: InteractableEntry<P>,
    location: InteractionLocation<P>,
    focused: Option<u64>,
    end_inside: bool,
)
    requires
        !e.disabled,
    ensures
        ({
            let r = resolved_entry(e, InteractionPhase::Started, location, focused, Some(e.entity), end_inside);
            &&& focus_after(InteractionPhase::Started, focused, Some(e.entity)) == Some(e.entity)
            &&& r.interactable.tracker.location matches Some(u) && u.start == location.start
                && u.current == location.start && u.end is None
            &&& r.interactable.active.0
            &&& r.interactable.triggered == e.interactable.triggered
            &&& r.interactable.toggled == e.interactable.toggled
        }),
{
}

/// A cancellation of the primary interaction stops the focused enabled element from
/// following it and makes it inactive, without triggering or toggling it.
pub proof fn lemma_cancel_releases_focused<P>(
    e: InteractableEntry<P>,
    location: InteractionLocation<P>,
    grabbed: Option<u64>,
    end_inside: bool,
)
    requires
        !e.disabled,
    ensures
        ({
            let r = resolved_entry(e, InteractionPhase::Cancelled, location, Some(e.entity), grabbed, end_inside);
            &&& r.interactable.tracker.location is None
            &&& !r.interactable.active.0
            &&& r.interactable.triggered == e.interactable.triggered
            &&& r.interactable.toggled == e.interactable.toggled
        }),
{
}

/// The end-of-frame cleanup clears every trigger, keeps every toggle, drops a tracking
/// whose interaction ended, and leaves an element that tracks nothing inactive.
pub proof fn lemma_cleanup_clears<P>(e: InteractableEntry<P>)
    ensures
        !cleaned_entry(e).interactable.triggered.0,
        cleaned_entry(e).interactable.toggled == e.interactable.toggled,
        cleaned_entry(e).entity == e.entity,
        cleaned_entry(e).disabled == e.disabled,
        (e.interactable.tracker.location matches Some(t) && t.end is Some)
            ==> cleaned_entry(e).interactable.tracker.location is None,
        e.interactable.tracker.location is None ==> !cleaned_entry(e).interactable.active.0,
        (e.interactable.tracker.location matches Some(t) && t.end is None && !e.disabled)
            ==> cleaned_entry(e).interactable.tracker == e.interactable.tracker
            && cleaned_entry(e).interactable.active == e.interactable.active,
{
}

/// The bookkeeping after one event is `state_after_event` of that event.
proof fn lemma_one_event<P>(
    state: InteractionState<P>,
    primary_mouse: Interaction,
    event: InteractionEvent<P>,
)
    ensures
        state_after_events(state, primary_mouse, seq![event]) == state_after_event(
            state,
            primary_mouse,
            event,
        ),
{
    let es = seq![event];
    assert(es.drop_last() =~= Seq::<InteractionEvent<P>>::empty());
    assert(es.last() == event);
    assert(state_after_events(state, primary_mouse, es.drop_last()) == state);
}

} // verus!
