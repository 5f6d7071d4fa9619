use ultrawm_core::config::config::ModTransformBindings;
use ultrawm_core::config::keybind::{KeyboardKeybind, ModMouseKeybind};
use ultrawm_core::event_handlers::keyboard_keybind_tracker::KeyboardKeybindTracker;
use ultrawm_core::event_handlers::mod_mouse_keybind_tracker::{
    InterceptionAction, KeybindEvent, ModMouseKeybindTracker,
};
use ultrawm_core::event_handlers::mod_transform_tracker::{
    detect_corner_wedge, detect_edge, is_position_in_middle, resize_mode, sort_by_rank, DragZones,
    ModTransformDragEvent, ModTransformTracker, ModTransformType, WindowTarget,
};
use ultrawm_core::event_handlers::resize_handle_tracker::{ResizeHandleEvent, ResizeHandleTracker};
use ultrawm_core::geometry::{Bounds, Position};
use ultrawm_core::handle_tracker::{HandleDragEvent, HandleDragTracker};
use ultrawm_core::input::{KeyCode, MouseButton};
use ultrawm_core::layouts::ResizeDirection;
use ultrawm_core::platform::{InputState, WMEvent};
use ultrawm_core::resize_handle::{HandleOrientation, ResizeHandle};

fn input(keys: &[KeyCode], buttons: &[MouseButton]) -> InputState {
    let mut s = InputState::new();
    for k in keys {
        s.keys.add(k);
    }
    for b in buttons {
        s.buttons.add(b);
    }
    s
}

fn pos(x: i32, y: i32) -> Position {
    Position::new(x, y)
}

fn handle() -> ResizeHandle {
    ResizeHandle::new(pos(500, 300), 600, HandleOrientation::Vertical, 0, 1000, 3, 1)
}

#[test]
fn keyboard_tracker_reports_only_the_press() {
    let mut t = KeyboardKeybindTracker::new(KeyboardKeybind::from_strs(&["cmd+shift+o"]));
    let held = input(&[KeyCode::SuperLeft, KeyCode::ShiftLeft, KeyCode::KeyO], &[]);
    assert!(t.is_pressed(&held));
    assert!(t.was_just_pressed(&held));
    assert!(!t.was_just_pressed(&held));
    let released = input(&[], &[]);
    assert!(!t.was_just_pressed(&released));
    assert!(t.was_just_pressed(&held));
    t.update(&released);
    assert!(!t.was_pressed);
}

#[test]
fn mod_mouse_tracker_full_drag() {
    let mut t = ModMouseKeybindTracker::new(ModMouseKeybind::from_strs(&["ctrl+lmb"]));
    let ctrl = input(&[KeyCode::ControlLeft], &[]);
    let step = t.handle_event(&WMEvent::KeyDown(KeyCode::ControlLeft), &ctrl);
    assert_eq!(step.interception, InterceptionAction::Request);
    t.interception_granted();
    assert!(t.mod_held());

    let pressed = input(&[KeyCode::ControlLeft], &[MouseButton::Left]);
    let step = t.handle_event(&WMEvent::MouseDown(pos(10, 10), MouseButton::Left), &pressed);
    assert_eq!(step.event, None);
    let step = t.handle_event(&WMEvent::MouseMoved(pos(12, 10)), &pressed);
    assert_eq!(step.event, Some(KeybindEvent::Start(pos(12, 10))));
    assert!(step.mark_handled);
    let step = t.handle_event(&WMEvent::MouseMoved(pos(14, 10)), &pressed);
    assert_eq!(step.event, Some(KeybindEvent::Drag(pos(14, 10))));
    let step = t.handle_event(&WMEvent::MouseUp(pos(15, 10), MouseButton::Left), &ctrl);
    assert_eq!(step.event, Some(KeybindEvent::End(pos(15, 10))));
}

#[test]
fn mod_mouse_tracker_escape_cancels() {
    let mut t = ModMouseKeybindTracker::new(ModMouseKeybind::from_strs(&["ctrl+lmb"]));
    let pressed = input(&[KeyCode::ControlLeft], &[MouseButton::Left]);
    t.handle_event(&WMEvent::MouseDown(pos(0, 0), MouseButton::Left), &pressed);
    let esc = input(&[KeyCode::ControlLeft, KeyCode::Escape], &[MouseButton::Left]);
    let step = t.handle_event(&WMEvent::KeyDown(KeyCode::Escape), &esc);
    assert_eq!(step.event, Some(KeybindEvent::Cancel));
    assert!(!t.flags.active);
}

#[test]
fn mod_mouse_tracker_other_button_cancels() {
    let mut t = ModMouseKeybindTracker::new(ModMouseKeybind::from_strs(&["ctrl+lmb"]));
    let pressed = input(&[KeyCode::ControlLeft], &[MouseButton::Left]);
    t.handle_event(&WMEvent::MouseDown(pos(0, 0), MouseButton::Left), &pressed);
    let both = input(&[KeyCode::ControlLeft], &[MouseButton::Left, MouseButton::Right]);
    let step = t.handle_event(&WMEvent::MouseDown(pos(0, 0), MouseButton::Right), &both);
    assert_eq!(step.event, Some(KeybindEvent::Cancel));
}

fn zones() -> DragZones {
    DragZones { threshold_width: 240, threshold_height: 180, corner_width: 200, corner_height: 150 }
}

#[test]
fn regions_of_a_window() {
    let b = Bounds::new(0, 0, 800, 600);
    assert!(is_position_in_middle(&b, &pos(400, 300), &zones()));
    assert!(!is_position_in_middle(&b, &pos(100, 300), &zones()));
    assert_eq!(detect_corner_wedge(&b, &pos(10, 10), 200, 150), Some(ResizeDirection::TopLeft));
    assert_eq!(detect_corner_wedge(&b, &pos(790, 590), 200, 150), Some(ResizeDirection::BottomRight));
    assert_eq!(detect_corner_wedge(&b, &pos(400, 10), 200, 150), None);
    assert_eq!(detect_edge(&b, &pos(400, 10)), ResizeDirection::Top);
    assert_eq!(detect_edge(&b, &pos(790, 300)), ResizeDirection::Right);
    assert_eq!(resize_mode(&b, &pos(790, 10), &zones()), ResizeDirection::TopRight);
    assert_eq!(resize_mode(&b, &pos(5, 300), &zones()), ResizeDirection::Left);
}

#[test]
fn drag_events_are_sorted_ends_first() {
    let s = vec![
        ModTransformDragEvent::Start(1, pos(0, 0), ModTransformType::Tile),
        ModTransformDragEvent::Drag(2, pos(0, 0), ModTransformType::Tile),
        ModTransformDragEvent::End(3, pos(0, 0), ModTransformType::Tile),
        ModTransformDragEvent::Cancel(4, ModTransformType::Tile),
        ModTransformDragEvent::End(5, pos(0, 0), ModTransformType::Float),
    ];
    let r = sort_by_rank(&s);
    let ids: Vec<u64> = r
        .iter()
        .map(|e| match e {
            ModTransformDragEvent::Start(id, ..)
            | ModTransformDragEvent::Drag(id, ..)
            | ModTransformDragEvent::End(id, ..)
            | ModTransformDragEvent::Cancel(id, ..) => *id,
        })
        .collect();
    assert_eq!(ids, vec![3, 5, 4, 2, 1]);
}

#[test]
fn mod_transform_tracker_tile_drag() {
    let mut t = ModTransformTracker::new(&ModTransformBindings::default());
    assert!(!t.active());
    let target = Some(WindowTarget { id: 9, bounds: Bounds::new(0, 0, 800, 600), zones: zones() });
    let pressed = input(&[KeyCode::ControlLeft], &[MouseButton::Left]);
    let out = t.handle_event(&WMEvent::MouseDown(pos(10, 10), MouseButton::Left), &pressed, target);
    assert!(out.events.is_empty());
    let out = t.handle_event(&WMEvent::MouseMoved(pos(20, 20)), &pressed, target);
    assert_eq!(out.events, vec![ModTransformDragEvent::Start(9, pos(20, 20), ModTransformType::Tile)]);
    let out = t.handle_event(&WMEvent::MouseMoved(pos(30, 20)), &pressed, target);
    assert_eq!(out.events, vec![ModTransformDragEvent::Drag(9, pos(30, 20), ModTransformType::Tile)]);
    let ctrl = input(&[KeyCode::ControlLeft], &[]);
    let out = t.handle_event(&WMEvent::MouseUp(pos(31, 20), MouseButton::Left), &ctrl, target);
    assert_eq!(out.events, vec![ModTransformDragEvent::End(9, pos(31, 20), ModTransformType::Tile)]);
    assert_eq!(out.bindings.len(), 6);
}

#[test]
fn mod_transform_tracker_resize_picks_corner() {
    let mut t = ModTransformTracker::new(&ModTransformBindings::default());
    let target = Some(WindowTarget { id: 4, bounds: Bounds::new(0, 0, 800, 600), zones: zones() });
    let pressed = input(&[KeyCode::ControlLeft], &[MouseButton::Right]);
    t.handle_event(&WMEvent::MouseDown(pos(790, 590), MouseButton::Right), &pressed, target);
    let out = t.handle_event(&WMEvent::MouseMoved(pos(795, 595)), &pressed, target);
    assert_eq!(
        out.events,
        vec![ModTransformDragEvent::Start(
            4,
            pos(795, 595),
            ModTransformType::Resize(ResizeDirection::BottomRight)
        )]
    );
}

#[test]
fn handle_drag_tracker_start_drag_end() {
    let mut t = HandleDragTracker::new();
    let h = handle();
    assert!(t.handle_event(&WMEvent::MouseMoved(pos(1, 1)), Some(h)).is_none());
    match t.handle_event(&WMEvent::MouseDown(pos(500, 300), MouseButton::Left), Some(h)) {
        Some(HandleDragEvent::Start(_, p)) => assert_eq!(p, pos(500, 300)),
        other => panic!("unexpected {:?}", other),
    }
    // a second press while dragging is ignored
    assert!(t.handle_event(&WMEvent::MouseDown(pos(1, 1), MouseButton::Left), Some(h)).is_none());
    match t.handle_event(&WMEvent::MouseMoved(pos(520, 300)), None) {
        Some(HandleDragEvent::Drag(_, p)) => assert_eq!(p, pos(520, 300)),
        other => panic!("unexpected {:?}", other),
    }
    match t.handle_event(&WMEvent::MouseUp(pos(530, 300), MouseButton::Left), None) {
        Some(HandleDragEvent::End(_, p)) => assert_eq!(p, pos(530, 300)),
        other => panic!("unexpected {:?}", other),
    }
    assert!(!t.dragging);
    assert!(t.active_handle.is_none());
}

#[test]
fn handle_drag_tracker_ignores_other_buttons() {
    let mut t = HandleDragTracker::new();
    assert!(t.handle_event(&WMEvent::MouseDown(pos(500, 300), MouseButton::Right), Some(handle())).is_none());
    assert!(!t.dragging);
}

#[test]
fn resize_handle_tracker_ends_when_all_buttons_are_up() {
    let mut t = ResizeHandleTracker::new();
    let h = handle();
    let held = input(&[], &[MouseButton::Left]);
    match t.handle_event(&WMEvent::MouseDown(pos(500, 300), MouseButton::Left), Some(h), &held) {
        Some(ResizeHandleEvent::Start(_, p, b)) => {
            assert_eq!(p, pos(500, 300));
            assert!(!b.any());
        }
        other => panic!("unexpected {:?}", other),
    }
    assert!(t.active());
    assert!(matches!(
        t.handle_event(&WMEvent::MouseMoved(pos(510, 300)), None, &held),
        Some(ResizeHandleEvent::Drag(..))
    ));
    // a button is still down: no end yet
    assert!(t.handle_event(&WMEvent::MouseUp(pos(510, 300), MouseButton::Right), None, &held).is_none());
    let none = input(&[], &[]);
    assert!(matches!(
        t.handle_event(&WMEvent::MouseUp(pos(512, 300), MouseButton::Left), None, &none),
        Some(ResizeHandleEvent::End(..))
    ));
    assert!(!t.active());
    assert!(!t.get_drag_buttons().any());
}

#[test]
fn resize_handle_tracker_active_follows_last_start_or_end() {
    let mut t = ResizeHandleTracker::new();
    let h = handle();
    let none = input(&[], &[]);
    let held = input(&[], &[MouseButton::Left]);
    // release without a drag: nothing reported, not active
    assert!(t.handle_event(&WMEvent::MouseUp(pos(1, 1), MouseButton::Left), None, &none).is_none());
    assert!(!t.active());
    // press elsewhere: nothing
    assert!(t.handle_event(&WMEvent::MouseDown(pos(1, 1), MouseButton::Left), None, &held).is_none());
    assert!(!t.active());
    assert!(matches!(
        t.handle_event(&WMEvent::MouseDown(pos(500, 300), MouseButton::Left), Some(h), &held),
        Some(ResizeHandleEvent::Start(..))
    ));
    assert!(t.active());
    assert!(matches!(
        t.handle_event(&WMEvent::MouseMoved(pos(505, 300)), None, &held),
        Some(ResizeHandleEvent::Drag(..))
    ));
    assert!(t.active());
    assert!(matches!(
        t.handle_event(&WMEvent::MouseUp(pos(505, 300), MouseButton::Left), None, &none),
        Some(ResizeHandleEvent::End(..))
    ));
    assert!(!t.active());
    assert!(t.handle_event(&WMEvent::MouseMoved(pos(520, 300)), None, &none).is_none());
    assert!(!t.active());
}

#[test]
fn mod_transform_tracker_grant_touches_only_the_named_binding() {
    let mut t = ModTransformTracker::new(&ModTransformBindings::default());
    let before = (
        t.tile_binding.flags,
        t.shift_binding.flags,
        t.toggle_binding.flags,
        t.resize_binding.flags,
        t.resize_symmetric_binding.flags,
    );
    t.interception_granted(1);
    assert!(t.float_binding.flags.intercepting);
    assert_eq!(
        (
            t.tile_binding.flags,
            t.shift_binding.flags,
            t.toggle_binding.flags,
            t.resize_binding.flags,
            t.resize_symmetric_binding.flags,
        ),
        before
    );
    assert!(t.resize_drag.is_none() && t.float_drag.is_none());
    t.interception_granted(9);
    assert!(!t.tile_binding.flags.intercepting);
}
