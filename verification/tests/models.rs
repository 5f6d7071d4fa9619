use ultrawm_core::coalescing_channel::PendingMessages;
use ultrawm_core::event_loop_main::{handle_main_thread_message, MainThreadMessage, TaskResult};
use ultrawm_core::config::config::Commands;
use ultrawm_core::config::keybind::KeyboardKeybind;
use ultrawm_core::drag_tracker::{DragContext, WindowDragEvent, WindowDragTracker, WindowDragType};
use ultrawm_core::geometry::{Bounds, Position};
use ultrawm_core::input::{KeyCode, Keys, MouseButton};
use ultrawm_core::layouts::balance::balance;
use ultrawm_core::layouts::serialization::{
    deserialize_container, SerializedContainer, SerializedContainerChild, SerializedWindow,
};
use ultrawm_core::layouts::Direction;
use ultrawm_core::platform::{InputState, WMEvent};

#[test]
fn balance_horizontal_with_gaps() {
    let r = balance(&Bounds::new(0, 0, 1000, 500), Direction::Horizontal, 3, 10);
    assert_eq!(r, vec![Bounds::new(0, 0, 326, 500), Bounds::new(336, 0, 326, 500), Bounds::new(672, 0, 326, 500)]);
}

#[test]
fn balance_vertical_and_empty() {
    let r = balance(&Bounds::new(10, 20, 300, 200), Direction::Vertical, 2, 0);
    assert_eq!(r, vec![Bounds::new(10, 20, 300, 100), Bounds::new(10, 120, 300, 100)]);
    assert!(balance(&Bounds::new(0, 0, 10, 10), Direction::Vertical, 0, 5).is_empty());
}

fn half() -> u32 {
    0.5f32.to_bits()
}

#[test]
fn restore_drops_missing_windows_and_their_ratios() {
    let saved = SerializedContainer {
        id: 1,
        direction: Direction::Horizontal,
        ratios: vec![1, 2, 3],
        children: vec![
            SerializedContainerChild::Window(SerializedWindow { id: 10 }),
            SerializedContainerChild::Window(SerializedWindow { id: 11 }),
            SerializedContainerChild::Window(SerializedWindow { id: 12 }),
        ],
    };
    let r = deserialize_container(&saved, false, &vec![10, 12]).unwrap();
    assert_eq!(r.ratios, vec![1, 3]);
    assert!(matches!(r.children[..], [SerializedContainerChild::Window(SerializedWindow { id: 10 }), SerializedContainerChild::Window(SerializedWindow { id: 12 })]));
    assert!(deserialize_container(&saved, false, &vec![]).is_none());
}

#[test]
fn restore_flattens_single_child_containers_below_the_root() {
    let inner = SerializedContainer {
        id: 2,
        direction: Direction::Vertical,
        ratios: vec![half(), half()],
        children: vec![SerializedContainerChild::Window(SerializedWindow { id: 1 }), SerializedContainerChild::Window(SerializedWindow { id: 2 })],
    };
    let saved = SerializedContainer {
        id: 1,
        direction: Direction::Horizontal,
        ratios: vec![half(), half()],
        children: vec![SerializedContainerChild::Container(inner), SerializedContainerChild::Window(SerializedWindow { id: 3 })],
    };
    // the root has no parent: its child container keeps its single window
    let r = deserialize_container(&saved, false, &vec![1, 3]).unwrap();
    match &r.children[0] {
        SerializedContainerChild::Container(c) => {
            assert_eq!(c.ratios, vec![half()]);
            assert!(matches!(c.children[..], [SerializedContainerChild::Window(SerializedWindow { id: 1 })]));
        }
        _ => panic!("expected a container"),
    }
    // below a parent, the single window takes the container's place
    let r = deserialize_container(&saved, true, &vec![1, 3]).unwrap();
    assert!(matches!(r.children[..], [SerializedContainerChild::Window(SerializedWindow { id: 1 }), SerializedContainerChild::Window(SerializedWindow { id: 3 })]));
    assert_eq!(r.ratios, vec![half(), half()]);
}

#[test]
fn input_state_follows_presses() {
    let mut s = InputState::new();
    s.handle_event(&WMEvent::KeyDown(KeyCode::ControlLeft));
    s.handle_event(&WMEvent::KeyDown(KeyCode::KeyA));
    s.handle_event(&WMEvent::KeyDown(KeyCode::KeyA));
    s.handle_event(&WMEvent::MouseDown(Position::new(0, 0), MouseButton::Left));
    assert!(s.key_pressed(&KeyCode::ControlLeft) && s.key_pressed(&KeyCode::KeyA));
    assert!(s.mouse_button_pressed(&MouseButton::Left));
    assert_eq!(s.keys.as_slice().len(), 2);
    s.handle_event(&WMEvent::KeyUp(KeyCode::KeyA));
    s.handle_event(&WMEvent::MouseUp(Position::new(0, 0), MouseButton::Left));
    s.handle_event(&WMEvent::ConfigChanged);
    assert!(!s.key_pressed(&KeyCode::KeyA));
    assert!(s.key_pressed(&KeyCode::ControlLeft));
    assert!(!s.mouse_button_pressed(&MouseButton::Left));
}

#[test]
fn keys_remove_keeps_order() {
    let mut k = Keys::new();
    k.add(&KeyCode::KeyA);
    k.add(&KeyCode::KeyB);
    k.add(&KeyCode::KeyC);
    k.remove(&KeyCode::KeyB);
    k.remove(&KeyCode::KeyZ);
    assert_eq!(k.as_slice(), &[KeyCode::KeyA, KeyCode::KeyC]);
}

#[test]
fn drag_tracker_fits_when_idle() {
    let t = WindowDragTracker::new();
    assert!(t.fits(&WMEvent::MouseMoved(Position::new(i32::MAX, i32::MIN)), None));
    assert!(t.fits(&WMEvent::KeyDown(KeyCode::KeyA), Some(Bounds::new(0, 0, 10, 10))));
}

#[test]
fn command_names_unique() {
    let mut c = Commands::new();
    c.insert("a".to_string(), KeyboardKeybind::from_strs(&["ctrl+a"]));
    c.insert("b".to_string(), KeyboardKeybind::from_strs(&["ctrl+b"]));
    assert_eq!(c.keybinds().len(), 2);
    c.insert("a".to_string(), KeyboardKeybind::empty());
    assert_eq!(c.keybinds().len(), 2);
    assert_eq!(c.keybinds()[0].0, "a");
    assert!(c.keybinds()[0].1.combos().is_empty());
    assert_eq!(c.keybinds()[1].0, "b");
}

#[test]
fn pending_messages_coalesce() {
    let mut p: PendingMessages<i32> = PendingMessages::new();
    let is_move = |x: &i32| *x > 0;
    let mut c = 1;
    for m in [2, -1, 3, -2] {
        c = p.absorb(c, m, &is_move);
    }
    assert_eq!(c, 3);
    assert_eq!(p.messages, vec![-1, -2]);
    assert_eq!(p.pop_front(), Some(-1));
    assert_eq!(p.pop_front(), Some(-2));
    assert_eq!(p.pop_front(), None);
}

#[test]
fn main_thread_messages() {
    let ran = std::cell::Cell::new(false);
    let r = handle_main_thread_message::<_, ()>(MainThreadMessage::RunOnMainThread { task: || ran.set(true) });
    assert_eq!(r, None);
    assert!(ran.get());
    let r = handle_main_thread_message::<fn(), ()>(MainThreadMessage::GetEventLoop { task: () });
    assert_eq!(r, None);
    assert_eq!(handle_main_thread_message::<fn(), ()>(MainThreadMessage::Shutdown), Some(TaskResult::Shutdown));
    assert_eq!(
        handle_main_thread_message::<fn(), ()>(MainThreadMessage::PanicError { message: "boom".to_string() }),
        Some(TaskResult::Panic("boom".to_string()))
    );
}

#[test]
fn drag_tracker_moves_a_window_near_the_edge_of_the_range() {
    let start = Bounds::new(i32::MAX - 100, 0, 500, 300);
    let mut t = WindowDragTracker {
        left_mouse_down: true,
        current_drag: Some(DragContext {
            window: 3,
            drag_type: None,
            start_position: Position::new(i32::MAX - 50, 10),
            start_bounds: start,
        }),
    };
    let moved = Bounds::new(i32::MAX - 80, 0, 500, 300);
    let event = WMEvent::MouseMoved(Position::new(i32::MAX - 30, 10));
    assert!(t.fits(&event, Some(moved)));
    assert_eq!(
        t.handle_event(&event, Some(moved), None),
        Some(WindowDragEvent::Drag(3, Position::new(i32::MAX - 30, 10), WindowDragType::Move))
    );
    // a resize there would need the edges, which leave the range
    let mut r = WindowDragTracker {
        left_mouse_down: true,
        current_drag: Some(DragContext {
            window: 3,
            drag_type: None,
            start_position: Position::new(i32::MAX - 50, 10),
            start_bounds: start,
        }),
    };
    assert!(!r.fits(&event, Some(Bounds::new(i32::MAX - 100, 0, 600, 300))));
    r.current_drag = None;
    assert!(r.fits(&event, None));
}

