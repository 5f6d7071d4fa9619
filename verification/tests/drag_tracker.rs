use ultrawm_core::drag_tracker::{
    WindowDragEvent, WindowDragTracker, WindowDragType, DRAG_TYPE_DETERMINATION_THRESHOLD,
};
use ultrawm_core::geometry::{Bounds, Position};
use ultrawm_core::input::MouseButton;
use ultrawm_core::layouts::ResizeDirection;
use ultrawm_core::platform::WMEvent;

#[test]
fn test_window_drag_type_equality() {
    assert_eq!(WindowDragType::Move, WindowDragType::Move);
    assert_eq!(
        WindowDragType::Resize(ResizeDirection::Left),
        WindowDragType::Resize(ResizeDirection::Left)
    );
    assert_ne!(
        WindowDragType::Move,
        WindowDragType::Resize(ResizeDirection::Right)
    );
    assert_ne!(
        WindowDragType::Resize(ResizeDirection::Left),
        WindowDragType::Resize(ResizeDirection::Right)
    );
}

#[test]
fn test_window_drag_type_clone() {
    let move_type = WindowDragType::Move;
    let cloned = move_type.clone();
    assert_eq!(move_type, cloned);

    let resize_type = WindowDragType::Resize(ResizeDirection::TopLeft);
    let cloned = resize_type.clone();
    assert_eq!(resize_type, cloned);
}

#[test]
fn test_window_drag_type_debug() {
    let move_type = WindowDragType::Move;
    let debug_str = format!("{:?}", move_type);
    assert!(debug_str.contains("Move"));

    let resize_type = WindowDragType::Resize(ResizeDirection::BottomRight);
    let debug_str = format!("{:?}", resize_type);
    assert!(debug_str.contains("Resize"));
    assert!(debug_str.contains("BottomRight"));
}

#[test]
fn test_calculate_resize_direction_left() {
    let old = Bounds::new(100, 100, 200, 200);
    let new = Bounds::new(90, 100, 210, 200);
    let direction = WindowDragTracker::calculate_resize_direction(&old, &new);
    assert_eq!(direction, ResizeDirection::Left);
}

#[test]
fn test_calculate_resize_direction_right() {
    let old = Bounds::new(100, 100, 200, 200);
    let new = Bounds::new(100, 100, 210, 200);
    let direction = WindowDragTracker::calculate_resize_direction(&old, &new);
    assert_eq!(direction, ResizeDirection::Right);
}

#[test]
fn test_calculate_resize_direction_top() {
    let old = Bounds::new(100, 100, 200, 200);
    let new = Bounds::new(100, 90, 200, 210);
    let direction = WindowDragTracker::calculate_resize_direction(&old, &new);
    assert_eq!(direction, ResizeDirection::Top);
}

#[test]
fn test_calculate_resize_direction_bottom() {
    let old = Bounds::new(100, 100, 200, 200);
    let new = Bounds::new(100, 100, 200, 210);
    let direction = WindowDragTracker::calculate_resize_direction(&old, &new);
    assert_eq!(direction, ResizeDirection::Bottom);
}

#[test]
fn test_calculate_resize_direction_top_left() {
    let old = Bounds::new(100, 100, 200, 200);
    let new = Bounds::new(90, 90, 210, 210);
    let direction = WindowDragTracker::calculate_resize_direction(&old, &new);
    assert_eq!(direction, ResizeDirection::TopLeft);
}

#[test]
fn test_calculate_resize_direction_top_right() {
    let old = Bounds::new(100, 100, 200, 200);
    let new = Bounds::new(100, 90, 210, 210);
    let direction = WindowDragTracker::calculate_resize_direction(&old, &new);
    assert_eq!(direction, ResizeDirection::TopRight);
}

#[test]
fn test_calculate_resize_direction_bottom_left() {
    let old = Bounds::new(100, 100, 200, 200);
    let new = Bounds::new(90, 100, 210, 210);
    let direction = WindowDragTracker::calculate_resize_direction(&old, &new);
    assert_eq!(direction, ResizeDirection::BottomLeft);
}

#[test]
fn test_calculate_resize_direction_bottom_right() {
    let old = Bounds::new(100, 100, 200, 200);
    let new = Bounds::new(100, 100, 210, 210);
    let direction = WindowDragTracker::calculate_resize_direction(&old, &new);
    assert_eq!(direction, ResizeDirection::BottomRight);
}

#[test]
fn test_calculate_resize_direction_no_change() {
    let old = Bounds::new(100, 100, 200, 200);
    let new = Bounds::new(100, 100, 200, 200);
    let direction = WindowDragTracker::calculate_resize_direction(&old, &new);
    assert_eq!(direction, ResizeDirection::Right);
}

#[test]
fn test_calculate_resize_direction_complex_case() {
    let old = Bounds::new(100, 100, 200, 200);
    let new = Bounds::new(90, 90, 190, 190);
    let direction = WindowDragTracker::calculate_resize_direction(&old, &new);
    assert_eq!(direction, ResizeDirection::Right);
}

#[test]
fn test_calculate_resize_direction_zero_size() {
    let old = Bounds::new(100, 100, 0, 0);
    let new = Bounds::new(100, 100, 50, 50);
    let direction = WindowDragTracker::calculate_resize_direction(&old, &new);
    assert_eq!(direction, ResizeDirection::BottomRight);
}

#[test]
fn test_calculate_resize_direction_negative_coords() {
    let old = Bounds::new(-100, -100, 200, 200);
    let new = Bounds::new(-110, -100, 210, 200);
    let direction = WindowDragTracker::calculate_resize_direction(&old, &new);
    assert_eq!(direction, ResizeDirection::Left);
}

#[test]
fn test_calculate_resize_direction_large_numbers() {
    let old = Bounds::new(1000, 1000, 2000, 2000);
    let new = Bounds::new(1000, 1000, 2000, 2100);
    let direction = WindowDragTracker::calculate_resize_direction(&old, &new);
    assert_eq!(direction, ResizeDirection::Bottom);
}

#[test]
fn test_window_drag_tracker_new() {
    let tracker = WindowDragTracker::new();
    assert_eq!(tracker.left_mouse_down, false);
    assert!(tracker.current_drag.is_none());
}

#[test]
fn test_drag_type_determination_threshold() {
    assert_eq!(DRAG_TYPE_DETERMINATION_THRESHOLD, 5);
    assert!(DRAG_TYPE_DETERMINATION_THRESHOLD > 0);
}

#[test]
fn test_calculate_resize_direction_only_width_increase() {
    let old = Bounds::new(100, 100, 200, 200);
    let new = Bounds::new(100, 100, 300, 200);
    let direction = WindowDragTracker::calculate_resize_direction(&old, &new);
    assert_eq!(direction, ResizeDirection::Right);
}

#[test]
fn test_calculate_resize_direction_only_height_increase() {
    let old = Bounds::new(100, 100, 200, 200);
    let new = Bounds::new(100, 100, 200, 300);
    let direction = WindowDragTracker::calculate_resize_direction(&old, &new);
    assert_eq!(direction, ResizeDirection::Bottom);
}

#[test]
fn test_calculate_resize_direction_width_decrease() {
    let old = Bounds::new(100, 100, 200, 200);
    let new = Bounds::new(120, 100, 180, 200);
    let direction = WindowDragTracker::calculate_resize_direction(&old, &new);
    assert_eq!(direction, ResizeDirection::Left);
}

#[test]
fn test_calculate_resize_direction_height_decrease() {
    let old = Bounds::new(100, 100, 200, 200);
    let new = Bounds::new(100, 120, 200, 180);
    let direction = WindowDragTracker::calculate_resize_direction(&old, &new);
    assert_eq!(direction, ResizeDirection::Top);
}

#[test]
fn test_calculate_resize_direction_position_only() {
    let old = Bounds::new(100, 100, 200, 200);
    let new = Bounds::new(150, 150, 200, 200);
    let direction = WindowDragTracker::calculate_resize_direction(&old, &new);
    assert_eq!(direction, ResizeDirection::Right);
}

#[test]
fn test_resize_direction_calculation_precision() {
    let old = Bounds::new(100, 100, 200, 200);
    let new = Bounds::new(100, 100, 201, 200);
    let direction = WindowDragTracker::calculate_resize_direction(&old, &new);
    assert_eq!(direction, ResizeDirection::Right);
}

#[test]
fn test_bounds_edge_calculations() {
    let bounds = Bounds::new(100, 150, 200, 300);
    let right_edge = bounds.position.x + bounds.size.width as i32;
    assert_eq!(right_edge, 300);
    let bottom_edge = bounds.position.y + bounds.size.height as i32;
    assert_eq!(bottom_edge, 450);
}

// A whole native drag: left button down, transform start, moves past the
// threshold with a changed size, then release.
#[test]
fn native_resize_drag_round_trip() {
    let mut tracker = WindowDragTracker::new();
    let start = Bounds::new(0, 0, 100, 100);
    let p0 = Position::new(100, 50);
    assert_eq!(tracker.handle_event(&WMEvent::MouseDown(p0, MouseButton::Left), None, None), None);
    assert_eq!(tracker.handle_event(&WMEvent::WindowTransformStarted(7), Some(start), Some(p0)), None);
    assert!(tracker.current_drag.is_some());
    // Inside the dead zone nothing is reported yet.
    let near = Position::new(103, 52);
    assert_eq!(tracker.handle_event(&WMEvent::MouseMoved(near), Some(start), None), None);
    // Past the threshold, but the window has not changed yet.
    let far = Position::new(120, 50);
    assert_eq!(tracker.handle_event(&WMEvent::MouseMoved(far), Some(start), None), None);
    // The window grew to the right: a resize from the right edge.
    let grown = Bounds::new(0, 0, 120, 100);
    assert_eq!(
        tracker.handle_event(&WMEvent::MouseMoved(far), Some(grown), None),
        Some(WindowDragEvent::Drag(7, far, WindowDragType::Resize(ResizeDirection::Right)))
    );
    assert_eq!(
        tracker.handle_event(&WMEvent::MouseUp(far, MouseButton::Left), None, None),
        Some(WindowDragEvent::End(7, far, WindowDragType::Resize(ResizeDirection::Right)))
    );
    assert!(tracker.current_drag.is_none());
    assert!(!tracker.left_mouse_down);
}

// A transform that starts without the left button held is ignored.
#[test]
fn transform_without_button_is_ignored() {
    let mut tracker = WindowDragTracker::new();
    let b = Bounds::new(0, 0, 10, 10);
    let p = Position::new(1, 1);
    assert_eq!(tracker.handle_event(&WMEvent::WindowTransformStarted(1), Some(b), Some(p)), None);
    assert!(tracker.current_drag.is_none());
}

// A move keeps the size and changes the position.
#[test]
fn native_move_is_detected() {
    let mut tracker = WindowDragTracker::new();
    let start = Bounds::new(0, 0, 100, 100);
    let p0 = Position::new(50, 50);
    tracker.handle_event(&WMEvent::MouseDown(p0, MouseButton::Left), None, None);
    tracker.handle_event(&WMEvent::WindowTransformStarted(3), Some(start), Some(p0));
    let p1 = Position::new(50, 80);
    let moved = Bounds::new(0, 30, 100, 100);
    assert_eq!(
        tracker.handle_event(&WMEvent::MouseMoved(p1), Some(moved), None),
        Some(WindowDragEvent::Drag(3, p1, WindowDragType::Move))
    );
}
