use workflow_visualizer::button::{ButtonBorder, ButtonIcon, ButtonLayout, ButtonText, ButtonType, TextValue};
use workflow_visualizer::diagnostics::{decimal_string, DiagnosticsHandle, FocusRecorder, GridConfigRecorder, Record};
use workflow_visualizer::engen::{loop_step, LoopAction, LoopEvent, LoopState, WindowEventKind};
use workflow_visualizer::focus::{set_focused, Focus, FocusListener, FocusedEntity, VirtualKeyboardAction};
use workflow_visualizer::grid::HorizontalSpan;
use workflow_visualizer::icon::{atlas_dimension, atlas_locations, try_read_icon_file, BundledIcon, IconBitmap, IconBitmapRequest, IconBitmapRequestManager, IconPixelData, IconScale};
use workflow_visualizer::images::{ImageHandle, ImageRequest};
use workflow_visualizer::instance::difference::{
    read_difference, release_slot, visibility_changed, InstanceAttribute, InstanceDifference, InstanceWrite,
};
use workflow_visualizer::instance::index::{Index, Indexer};
use workflow_visualizer::job::{attempt_to_idle, ExecutionState, Exit, Idle};
use workflow_visualizer::resource::ResourceHandle;

#[test]
fn focus_and_blur() {
    let mut focus = Focus::new();
    assert!(!focus.focused());
    focus.focus();
    assert!(focus.focused());
    focus.blur();
    assert!(!focus.focused());
    assert!(!Focus::default().focused());
}

#[test]
fn focus_change_reaches_every_listener() {
    let mut listeners = vec![
        FocusListener { entity: 1, focus: Focus { focused: true } },
        FocusListener { entity: 2, focus: Focus { focused: false } },
        FocusListener { entity: 3, focus: Focus { focused: false } },
    ];
    let action = set_focused(&mut listeners, Some(2), true, true);
    assert_eq!(action, VirtualKeyboardAction::Open);
    assert!(!listeners[0].focus.focused());
    assert!(listeners[1].focus.focused());
    assert!(!listeners[2].focus.focused());
    let action = set_focused(&mut listeners, Some(2), false, true);
    assert_eq!(action, VirtualKeyboardAction::Keep);
    assert!(listeners[1].focus.focused());
    let action = set_focused(&mut listeners, None, true, false);
    assert_eq!(action, VirtualKeyboardAction::Close);
    assert!(listeners.iter().all(|l| !l.focus.focused()));
    let action = set_focused(&mut listeners, Some(3), true, false);
    assert_eq!(action, VirtualKeyboardAction::Close);
    assert!(listeners[2].focus.focused());
    assert_eq!(FocusedEntity::new(Some(4)).entity, Some(4));
}

#[test]
fn indexer_hands_out_and_reuses_slots() {
    let mut indexer: Indexer<u64> = Indexer::new(2);
    assert_eq!(indexer.next(10), Index::new(0));
    assert_eq!(indexer.next(11), Index::new(1));
    assert_eq!(indexer.next(12), Index::new(2));
    assert_eq!(indexer.count(), 3);
    assert_eq!(indexer.get_index(11), Some(Index::new(1)));
    assert_eq!(indexer.remove(11), Some(Index::new(1)));
    assert_eq!(indexer.remove(11), None);
    assert_eq!(indexer.get_index(11), None);
    // the released slot is the only hole, so it is handed out next
    assert_eq!(indexer.next(13), Index::new(1));
    assert_eq!(indexer.count(), 3);
    assert_eq!(indexer.next(14), Index::new(3));
    assert_eq!(indexer.max(), 2);
    assert!(indexer.should_grow());
    assert_eq!(indexer.max(), 4);
    assert!(!indexer.should_grow());
    assert_eq!(Index::from(7).value, 7);
}

#[test]
fn job_hooks() {
    let mut idle = Idle::new();
    assert!(!idle.can_idle);
    attempt_to_idle(&mut idle);
    assert!(idle.can_idle);
    let mut exit = Exit::new();
    assert!(!exit.exit_requested);
    exit.request_exit();
    assert!(exit.exit_requested);
    assert!(ExecutionState::Suspended.suspended());
    assert!(ExecutionState::Active.resumed());
    assert!(!ExecutionState::Active.suspended());
}

#[test]
fn loop_decisions() {
    let mut state = LoopState { frontend: ExecutionState::Suspended, backend: ExecutionState::Suspended };
    assert_eq!(loop_step(&mut state, LoopEvent::Init, false, false), vec![LoopAction::Startup]);
    assert_eq!(loop_step(&mut state, LoopEvent::RedrawRequested, false, false), vec![]);
    assert_eq!(loop_step(&mut state, LoopEvent::MainEventsCleared, false, false), vec![LoopAction::ExitIfRequested]);
    loop_step(&mut state, LoopEvent::Resumed, false, false);
    assert_eq!(state.frontend, ExecutionState::Active);
    assert_eq!(state.backend, ExecutionState::Active);
    assert_eq!(
        loop_step(&mut state, LoopEvent::MainEventsCleared, false, false),
        vec![LoopAction::RunFrontendMain, LoopAction::ExitIfRequested]
    );
    assert_eq!(loop_step(&mut state, LoopEvent::RedrawRequested, false, false), vec![LoopAction::Extract, LoopAction::RunBackendMain, LoopAction::Render]);
    assert_eq!(
        loop_step(&mut state, LoopEvent::RedrawEventsCleared, true, true),
        vec![LoopAction::RequestRedraw, LoopAction::Wait]
    );
    assert_eq!(loop_step(&mut state, LoopEvent::RedrawEventsCleared, true, false), vec![LoopAction::RequestRedraw]);
    assert_eq!(
        loop_step(&mut state, LoopEvent::Window(WindowEventKind::CloseRequested), false, false),
        vec![LoopAction::Exit]
    );
    assert_eq!(
        loop_step(&mut state, LoopEvent::Window(WindowEventKind::Resized), false, false),
        vec![LoopAction::Resize]
    );
    loop_step(&mut state, LoopEvent::Suspended, false, false);
    assert_eq!(state.frontend, ExecutionState::Suspended);
    assert_eq!(loop_step(&mut state, LoopEvent::LoopDestroyed, false, false), vec![LoopAction::Teardown]);
}

#[test]
fn diagnostics_core_record_counts() {
    let mut handle = DiagnosticsHandle::new(GridConfigRecorder::new());
    assert_eq!(handle.core_record(), "@sys.counter:1");
    assert_eq!(handle.core_record(), "@sys.counter:2");
    handle.ext.record_span_configured(HorizontalSpan::Four);
    handle.ext.record_span_configured(HorizontalSpan::Four);
    handle.ext.record_span_configured(HorizontalSpan::Twelve);
    assert_eq!(handle.ext.times_span_configured.four, Some(2));
    assert_eq!(handle.ext.times_span_configured.eight, None);
    assert_eq!(handle.ext.times_span_configured.twelve, Some(1));
    let text = handle.record();
    assert_eq!(handle.counter, 3);
    assert!(text.starts_with("\"@sys.counter:3\":"));
    let mut focus = FocusRecorder::new();
    focus.record_time_focus(5);
    focus.record_time_focus(5);
    focus.record_loop_focused(6);
    assert_eq!(focus.times_focused.get(&5), Some(&2));
    assert_eq!(focus.loops_focused.get(&6), Some(&1));
    assert!(focus.record(String::from("core")).starts_with("\"core\":@times_focused:"));
}

#[test]
fn icon_files_and_bitmaps() {
    let pixels = try_read_icon_file("[0, 128, 255]").unwrap();
    assert_eq!(pixels, vec![IconPixelData::new(0), IconPixelData::new(128), IconPixelData::new(255)]);
    assert!(try_read_icon_file("[256]").is_none());
    assert!(try_read_icon_file("not json").is_none());
    let full = format!("[{}]", vec!["255"; 400].join(","));
    let bitmap = IconBitmap::from_icon_file(&full).unwrap();
    assert_eq!(bitmap.data.len(), 400);
    assert!(bitmap.data.iter().all(|p| p.data == IconPixelData::FULL_COVERAGE));
    assert!(IconBitmap::from_icon_file("[1, 2]").is_none());
    let mut manager = IconBitmapRequestManager::new();
    manager.add(IconBitmapRequest::new(ResourceHandle(3), bitmap));
    assert_eq!(manager.requests.len(), 1);
    assert_eq!(manager.requests[0].id, ResourceHandle(3));
    assert_eq!(BundledIcon::Edit.file_name(), "edit_alt.icon");
    assert_eq!(IconScale::Symmetrical(12).dimensions(), (12, 12));
    assert_eq!(IconScale::Asymmetrical((3, 4)).dimensions(), (3, 4));
    assert_eq!(IconPixelData::from(7u8).data, 7);
}

#[test]
fn buttons() {
    assert!(ButtonType::Press.inverted(true, false));
    assert!(!ButtonType::Press.inverted(false, true));
    assert!(ButtonType::Toggle.inverted(false, true));
    assert!(!ButtonType::Toggle.inverted(false, false));
    assert_eq!(ButtonLayout::of(true, true), ButtonLayout::IconAndText);
    assert_eq!(ButtonLayout::of(true, false), ButtonLayout::IconOnly);
    assert_eq!(ButtonLayout::of(false, true), ButtonLayout::TextOnly);
    assert_eq!(ButtonLayout::of(false, false), ButtonLayout::Empty);
    assert!(ButtonText::none().desc.is_none());
    assert_eq!(ButtonText::some(TextValue(String::from("ok"))).desc, Some(TextValue(String::from("ok"))));
    assert_eq!(ButtonIcon::some(ResourceHandle(1)).desc, Some(ResourceHandle(1)));
    assert!(ButtonIcon::none().desc.is_none());
    assert_ne!(ButtonBorder::Border, ButtonBorder::Borderless);
    let request = ImageRequest::new(ImageHandle(2), vec![1, 2, 3]);
    assert_eq!(request.handle, ImageHandle::from(2));
    assert_eq!(request.data, vec![1, 2, 3]);
}

#[test]
fn instance_differences_become_writes() {
    let mut indexer: Indexer<u64> = Indexer::new(4);
    let mut diff = InstanceDifference::new();
    visibility_changed(&mut diff, true);
    assert!(diff.create && diff.position && diff.icon_id && !diff.remove);
    let writes = read_difference(&mut indexer, 7, &mut diff);
    let at = |attribute| InstanceWrite { index: Index::new(0), attribute };
    assert_eq!(
        writes,
        vec![
            at(InstanceAttribute::NullBit(false)),
            at(InstanceAttribute::Position),
            at(InstanceAttribute::Area),
            at(InstanceAttribute::Layer),
            at(InstanceAttribute::Color),
            at(InstanceAttribute::TexCoords),
        ]
    );
    assert_eq!(diff, InstanceDifference::new());
    // an attribute change of an instance with a slot
    diff.color = true;
    assert_eq!(read_difference(&mut indexer, 7, &mut diff), vec![at(InstanceAttribute::Color)]);
    // an attribute change of an instance without a slot writes nothing
    diff.color = true;
    assert!(read_difference(&mut indexer, 8, &mut diff).is_empty());
    // hiding releases the slot
    visibility_changed(&mut diff, false);
    assert_eq!(read_difference(&mut indexer, 7, &mut diff), vec![at(InstanceAttribute::NullBit(true))]);
    assert_eq!(indexer.get_index(7), None);
    let mut writes = Vec::new();
    release_slot(&mut indexer, 7, &mut writes);
    assert!(writes.is_empty());
}

#[test]
fn button_parts_and_colors() {
    use_parts();
}

fn use_parts() {
    let parts = workflow_visualizer::button::ButtonParts { panel: Some(1), icon: Some(3), text: None };
    assert_eq!(parts.secondary_entities(), vec![1, 3]);
    let parts = workflow_visualizer::button::ButtonParts { panel: Some(1), icon: Some(3), text: Some(2) };
    assert_eq!(parts.secondary_entities(), vec![1, 2, 3]);
    assert_eq!(workflow_visualizer::button::invert_colors(true, 'f', 'b'), ('f', 'b'));
    assert_eq!(workflow_visualizer::button::invert_colors(false, 'f', 'b'), ('b', 'f'));
}

#[test]
fn recorders_print_counts_as_maps() {
    let mut grid = GridConfigRecorder::new();
    assert_eq!(grid.record(String::from("@sys.counter:1")), "\"@sys.counter:1\":{}");
    grid.record_span_configured(HorizontalSpan::Twelve);
    grid.record_span_configured(HorizontalSpan::Four);
    grid.record_span_configured(HorizontalSpan::Four);
    assert_eq!(grid.record(String::from("@sys.counter:2")), "\"@sys.counter:2\":{Four: 2, Twelve: 1}");
    let mut focus = FocusRecorder::new();
    assert_eq!(focus.record(String::from("c")), "\"c\":@times_focused:{}:@loops_focused:{}");
    focus.record_time_focus(5);
    focus.record_time_focus(5);
    focus.record_loop_focused(6);
    assert_eq!(focus.record(String::from("c")), "\"c\":@times_focused:{5v0: 2}:@loops_focused:{6v0: 1}");
    focus.record_time_focus(7);
    let text = focus.record(String::from("c"));
    assert!(
        text == "\"c\":@times_focused:{5v0: 2, 7v0: 1}:@loops_focused:{6v0: 1}"
            || text == "\"c\":@times_focused:{7v0: 1, 5v0: 2}:@loops_focused:{6v0: 1}"
    );
}

#[test]
fn entity_keys_print_index_and_generation() {
    let mut focus = FocusRecorder::new();
    focus.record_time_focus((1u64 << 32) | 3);
    assert_eq!(focus.record(String::from("c")), "\"c\":@times_focused:{3v1: 1}:@loops_focused:{}");
}

#[test]
fn handle_records_through_its_recorder() {
    let mut handle = DiagnosticsHandle::new(GridConfigRecorder::new());
    handle.ext.record_span_configured(HorizontalSpan::Eight);
    assert_eq!(handle.record(), "\"@sys.counter:1\":{Eight: 1}");
    assert_eq!(handle.record(), "\"@sys.counter:2\":{Eight: 1}");
}

#[test]
fn decimal_strings() {
    assert_eq!(decimal_string(0), "0");
    assert_eq!(decimal_string(7), "7");
    assert_eq!(decimal_string(1204), "1204");
    assert_eq!(decimal_string(u64::MAX), u64::MAX.to_string());
}

#[test]
fn atlas_cells_fill_rows() {
    assert_eq!(atlas_dimension(0), 1);
    assert_eq!(atlas_dimension(1), 1);
    assert_eq!(atlas_dimension(2), 2);
    assert_eq!(atlas_dimension(4), 2);
    assert_eq!(atlas_dimension(5), 3);
    assert_eq!(atlas_dimension(u32::MAX), 65536);
    assert_eq!(atlas_locations(5, 2), vec![(0, 0), (1, 0), (0, 1), (1, 1), (0, 2)]);
    assert!(atlas_locations(0, 3).is_empty());
}

#[test]
fn bundled_image_file_names() {
    assert_eq!(workflow_visualizer::images::BundledImageIcon::Activity.file_name(), "activity.png");
    assert_eq!(workflow_visualizer::images::BundledImageIcon::AlertCircle.file_name(), "alert-circle.png");
    assert_eq!(workflow_visualizer::images::BundledImageIcon::MapIcon.file_name(), "map.png");
}
