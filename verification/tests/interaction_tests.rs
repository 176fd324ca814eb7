use std::collections::HashMap;

use workflow_visualizer::focus::FocusedEntity;
use workflow_visualizer::interaction::{
    cleanup, resolve, update_interactions, Interactable, InteractableEntry, Interaction,
    InteractionDevice, InteractionEvent, InteractionLocations, InteractionPhase,
    InteractionPhases, MouseAdapter, MouseButtonCode, PrimaryInteraction, PrimaryMouseButton,
};
use workflow_visualizer::touch::{
    cancel_mouse, interaction_event, register_mouse_click, register_touch, set_mouse_location,
    ButtonState, TouchAdapter, TouchEvent, TouchType,
};

type Pos = (i32, i32);

fn entry(entity: u64) -> InteractableEntry<Pos> {
    InteractableEntry { entity, disabled: false, interactable: Interactable::new() }
}

fn event(device: InteractionDevice, phase: InteractionPhase, id: u32, at: Pos) -> InteractionEvent<Pos> {
    InteractionEvent::new(device, at, phase, Interaction(id))
}

#[test]
fn mouse_buttons_number_interactions() {
    assert_eq!(Interaction::from_mouse_button(MouseButtonCode::Left), Interaction(0));
    assert_eq!(Interaction::from_mouse_button(MouseButtonCode::Right), Interaction(1));
    assert_eq!(Interaction::from_mouse_button(MouseButtonCode::Middle), Interaction(2));
    assert_eq!(Interaction::from_mouse_button(MouseButtonCode::Other(4)), Interaction(7));
    assert_eq!(PrimaryMouseButton::default().0, Interaction(0));
    assert_eq!(Interaction::from(5u64 + (1u64 << 32)), Interaction(5));
}

#[test]
fn events_update_primary_phases_and_locations() {
    let mut primary = PrimaryInteraction::default();
    let mut locations = InteractionLocations(HashMap::new());
    let mut phases = InteractionPhases(HashMap::new());
    let events = vec![
        // right button presses do not become primary
        event(InteractionDevice::Mouse, InteractionPhase::Started, 1, (1, 1)),
        event(InteractionDevice::Mouse, InteractionPhase::Started, 0, (2, 2)),
        event(InteractionDevice::Mouse, InteractionPhase::Moved, 0, (3, 3)),
        event(InteractionDevice::Touchscreen, InteractionPhase::Started, 9, (4, 4)),
        event(InteractionDevice::Mouse, InteractionPhase::Ended, 0, (5, 5)),
        event(InteractionDevice::Mouse, InteractionPhase::Moved, 42, (6, 6)),
    ];
    update_interactions(&mut primary, &events, &PrimaryMouseButton::default(), &mut locations, &mut phases);
    assert_eq!(primary.0, Some(Interaction(0)));
    assert_eq!(phases.0.get(&0), Some(&InteractionPhase::Ended));
    assert_eq!(phases.0.get(&9), Some(&InteractionPhase::Started));
    assert_eq!(phases.0.get(&42), Some(&InteractionPhase::Moved));
    let loc = locations.0.get(&0).unwrap();
    assert_eq!(loc.start, (2, 2));
    assert_eq!(loc.current, (3, 3));
    assert_eq!(loc.end, Some((5, 5)));
    assert!(locations.0.get(&42).is_none());
}

#[test]
fn press_and_release_inside_triggers() {
    let mut primary = PrimaryInteraction(Some(Interaction(0)));
    let mut focused = FocusedEntity::new(None);
    let mut phases = InteractionPhases(HashMap::new());
    let mut locations = InteractionLocations(HashMap::new());
    let mut entries = vec![entry(1), entry(2)];
    phases.0.insert(0, InteractionPhase::Started);
    locations.0.insert(0, workflow_visualizer::interaction::InteractionLocation::new((5, 5)));
    resolve(&mut primary, &phases, &locations, &mut focused, Some(2), false, &mut entries);
    assert_eq!(focused.entity, Some(2));
    assert!(entries[1].interactable.active.active());
    assert!(!entries[0].interactable.active.active());
    assert_eq!(primary.0, Some(Interaction(0)));

    phases.0.insert(0, InteractionPhase::Ended);
    let mut ended = *locations.0.get(&0).unwrap();
    ended.end = Some((6, 6));
    locations.0.insert(0, ended);
    resolve(&mut primary, &phases, &locations, &mut focused, None, true, &mut entries);
    assert_eq!(primary.0, None);
    assert!(entries[1].interactable.triggered.active());
    assert!(entries[1].interactable.toggled.active());
    assert!(!entries[1].interactable.active.active());
    assert_eq!(entries[1].interactable.tracker.location.unwrap().end, Some((6, 6)));

    cleanup(&mut entries, &mut focused);
    assert!(!entries[1].interactable.triggered.active());
    assert!(entries[1].interactable.toggled.active());
    assert!(entries[1].interactable.tracker.location.is_none());
    assert_eq!(focused.entity, None);
}

#[test]
fn release_outside_does_not_trigger() {
    let mut primary = PrimaryInteraction(Some(Interaction(3)));
    let mut focused = FocusedEntity::new(Some(1));
    let mut phases = InteractionPhases(HashMap::new());
    let mut locations = InteractionLocations(HashMap::new());
    let mut entries = vec![entry(1)];
    phases.0.insert(3, InteractionPhase::Started);
    locations.0.insert(3, workflow_visualizer::interaction::InteractionLocation::new((0, 0)));
    resolve(&mut primary, &phases, &locations, &mut focused, Some(1), false, &mut entries);
    phases.0.insert(3, InteractionPhase::Ended);
    let mut ended = *locations.0.get(&3).unwrap();
    ended.end = Some((100, 100));
    locations.0.insert(3, ended);
    resolve(&mut primary, &phases, &locations, &mut focused, None, false, &mut entries);
    assert!(!entries[0].interactable.triggered.active());
    assert!(!entries[0].interactable.toggled.active());
    assert!(entries[0].interactable.tracker.location.is_none());
    // focus stays: cleanup only drops focus of elements whose tracking ended
    cleanup(&mut entries, &mut focused);
    assert_eq!(focused.entity, Some(1));
}

#[test]
fn start_on_nothing_releases_focus() {
    let mut primary = PrimaryInteraction(Some(Interaction(0)));
    let mut focused = FocusedEntity::new(Some(1));
    let mut phases = InteractionPhases(HashMap::new());
    let mut locations = InteractionLocations(HashMap::new());
    let mut entries = vec![entry(1)];
    entries[0].interactable.active.0 = true;
    phases.0.insert(0, InteractionPhase::Started);
    locations.0.insert(0, workflow_visualizer::interaction::InteractionLocation::new((0, 0)));
    resolve(&mut primary, &phases, &locations, &mut focused, None, false, &mut entries);
    assert_eq!(focused.entity, None);
    assert!(!entries[0].interactable.active.active());
    // without a primary interaction nothing happens
    let mut none = PrimaryInteraction(None);
    resolve(&mut none, &phases, &locations, &mut focused, Some(1), false, &mut entries);
    assert_eq!(focused.entity, None);
}

#[test]
fn disabled_elements_are_left_alone() {
    let mut primary = PrimaryInteraction(Some(Interaction(0)));
    let mut focused = FocusedEntity::new(None);
    let mut phases = InteractionPhases(HashMap::new());
    let mut locations = InteractionLocations(HashMap::new());
    let mut entries = vec![InteractableEntry { entity: 1, disabled: true, interactable: Interactable::new() }];
    phases.0.insert(0, InteractionPhase::Started);
    locations.0.insert(0, workflow_visualizer::interaction::InteractionLocation::new((0, 0)));
    resolve(&mut primary, &phases, &locations, &mut focused, Some(1), false, &mut entries);
    assert_eq!(focused.entity, Some(1));
    assert!(!entries[0].interactable.active.active());
    assert!(entries[0].interactable.tracker.location.is_none());
}

#[test]
fn mouse_button_cache() {
    let mut adapter = MouseAdapter::new((0, 0));
    assert!(adapter.cache_invalid(MouseButtonCode::Left, ButtonState::Pressed));
    assert!(!adapter.cache_invalid(MouseButtonCode::Left, ButtonState::Pressed));
    assert!(adapter.cache_invalid(MouseButtonCode::Left, ButtonState::Released));
    adapter.set_location((3, 4));
    assert_eq!(adapter.location, (3, 4));
}

#[test]
fn touches_become_events() {
    let mut adapter: TouchAdapter<Pos> = TouchAdapter::new();
    let events = register_touch(&mut adapter, 7, InteractionPhase::Started, (1, 1));
    assert_eq!(events, vec![TouchEvent { touch_type: TouchType::OnPress, location: Some((1, 1)) }]);
    // a second finger is followed but not primary
    let events = register_touch(&mut adapter, 8, InteractionPhase::Started, (9, 9));
    assert!(events.is_empty());
    let events = register_touch(&mut adapter, 7, InteractionPhase::Moved, (2, 2));
    assert_eq!(events, vec![TouchEvent { touch_type: TouchType::OnMove, location: Some((2, 2)) }]);
    let events = register_touch(&mut adapter, 8, InteractionPhase::Moved, (8, 8));
    assert!(events.is_empty());
    assert_eq!(adapter.touches.get(&8).unwrap().current, (8, 8));
    let events = register_touch(&mut adapter, 7, InteractionPhase::Ended, (3, 3));
    assert_eq!(events, vec![TouchEvent { touch_type: TouchType::OnRelease, location: Some((3, 3)) }]);
    assert!(adapter.primary.is_none());
    assert_eq!(adapter.touches.get(&7).unwrap().end, Some((3, 3)));
    let events = register_touch(&mut adapter, 8, InteractionPhase::Cancelled, (0, 0));
    assert!(events.is_empty());
    assert!(adapter.touches.get(&8).unwrap().cancelled);
    let events = register_touch(&mut adapter, 8, InteractionPhase::Started, (5, 5));
    assert_eq!(events.len(), 1);
    let events = register_touch(&mut adapter, 8, InteractionPhase::Cancelled, (5, 5));
    assert_eq!(events, vec![TouchEvent { touch_type: TouchType::Cancelled, location: None }]);
}

#[test]
fn mouse_clicks_become_events() {
    let mut adapter = workflow_visualizer::touch::MouseAdapter::<Pos>::new();
    let events = register_mouse_click(&mut adapter, ButtonState::Pressed, MouseButtonCode::Left, (1, 1), true);
    assert_eq!(events, vec![TouchEvent { touch_type: TouchType::OnPress, location: Some((1, 1)) }]);
    // same state again: nothing
    let events = register_mouse_click(&mut adapter, ButtonState::Pressed, MouseButtonCode::Left, (1, 1), true);
    assert!(events.is_empty());
    set_mouse_location(&mut adapter, (4, 4));
    assert_eq!(adapter.location, Some((4, 4)));
    assert_eq!(adapter.buttons.get(&0).unwrap().1.unwrap().current, (4, 4));
    let events = register_mouse_click(&mut adapter, ButtonState::Released, MouseButtonCode::Left, (4, 4), true);
    assert_eq!(events, vec![TouchEvent { touch_type: TouchType::OnRelease, location: Some((4, 4)) }]);
    assert_eq!(adapter.buttons.get(&0).unwrap().1.unwrap().end, Some((4, 4)));
    // a press outside the viewport records nothing and sends nothing
    let events = register_mouse_click(&mut adapter, ButtonState::Pressed, MouseButtonCode::Right, (9, 9), false);
    assert!(events.is_empty());
    assert!(adapter.buttons.get(&1).is_none());
    // release outside the viewport cancels the primary button
    register_mouse_click(&mut adapter, ButtonState::Pressed, MouseButtonCode::Left, (1, 1), true);
    let events = register_mouse_click(&mut adapter, ButtonState::Released, MouseButtonCode::Left, (99, 99), false);
    assert_eq!(events, vec![TouchEvent { touch_type: TouchType::Cancelled, location: None }]);
    assert_eq!(adapter.buttons.get(&0).unwrap().0, ButtonState::Released);
}

#[test]
fn leaving_the_viewport_cancels_followed_buttons() {
    let mut adapter = workflow_visualizer::touch::MouseAdapter::<Pos>::new();
    register_mouse_click(&mut adapter, ButtonState::Pressed, MouseButtonCode::Left, (1, 1), true);
    register_mouse_click(&mut adapter, ButtonState::Pressed, MouseButtonCode::Right, (1, 1), true);
    let event = cancel_mouse(&mut adapter);
    assert_eq!(event, TouchEvent { touch_type: TouchType::Cancelled, location: None });
    assert!(adapter.buttons.get(&0).unwrap().1.unwrap().cancelled);
    assert!(adapter.buttons.get(&1).unwrap().1.unwrap().cancelled);
    assert_eq!(adapter.buttons.get(&0).unwrap().0, ButtonState::Pressed);
}

#[test]
fn touch_events_become_interaction_events() {
    let press = TouchEvent { touch_type: TouchType::OnPress, location: Some((2, 3)) };
    assert_eq!(
        interaction_event(press, InteractionDevice::Touchscreen, Interaction(4), (0, 0)),
        event(InteractionDevice::Touchscreen, InteractionPhase::Started, 4, (2, 3))
    );
    let cancel = TouchEvent { touch_type: TouchType::Cancelled, location: None };
    assert_eq!(
        interaction_event(cancel, InteractionDevice::Mouse, Interaction(0), (7, 7)),
        event(InteractionDevice::Mouse, InteractionPhase::Cancelled, 0, (7, 7))
    );
}
