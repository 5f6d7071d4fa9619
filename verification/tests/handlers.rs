use ultrawm_core::commands::{CommandAction, CommandContext};
use ultrawm_core::config::config::ResizeHandleBindings;
use ultrawm_core::config::keybind::ModMouseKeybind;
use ultrawm_core::drag_handler::{PreviewAction, WindowMoveHandler};
use ultrawm_core::drag_tracker::{WindowDragEvent, WindowDragType};
use ultrawm_core::event_handlers::context_menu_handler::{
    context_menu_entries, ContextMenuHandler, MenuCommand, MenuEntry,
};
use ultrawm_core::event_handlers::focus_on_hover_handler::FocusOnHoverHandler;
use ultrawm_core::event_handlers::mod_transform_handler::{
    calculate_resize_bounds, calculate_resize_bounds_symmetric, cursor_for_resize_mode, CursorType,
    HandlerAction, HandlerError, ModTransformHandler,
};
use ultrawm_core::event_handlers::mod_transform_tracker::{ModTransformDragEvent, ModTransformType};
use ultrawm_core::event_handlers::native_transform_handler::NativeTransformHandler;
use ultrawm_core::event_handlers::resize_handle_handler::{ResizeHandleAction, ResizeHandleHandler};
use ultrawm_core::geometry::{Bounds, Position};
use ultrawm_core::input::{KeyCode, MouseButton};
use ultrawm_core::layouts::ResizeDirection;
use ultrawm_core::platform::{ContextMenuRequest, InputState, WMEvent};
use ultrawm_core::resize_handle::{HandleOrientation, ResizeHandle, ResizeMode};

fn pos(x: i32, y: i32) -> Position {
    Position::new(x, y)
}

fn input(keys: &[KeyCode], buttons: &[MouseButton]) -> InputState {
    let mut s = InputState::new();
    for k in keys {
        s.keys.add(k);
    }
    for b in buttons {
        s.buttons.add(b);
    }
    s
}

#[test]
fn cursor_for_each_edge() {
    assert_eq!(cursor_for_resize_mode(ResizeDirection::Top), CursorType::ResizeNorth);
    assert_eq!(cursor_for_resize_mode(ResizeDirection::Right), CursorType::ResizeEast);
    assert_eq!(cursor_for_resize_mode(ResizeDirection::BottomRight), CursorType::ResizeNorthWest);
    assert_eq!(cursor_for_resize_mode(ResizeDirection::BottomLeft), CursorType::ResizeNorthEast);
}

#[test]
fn resize_from_left_edge_moves_and_shrinks() {
    let b = Bounds::new(100, 100, 400, 300);
    let r = calculate_resize_bounds(&b, &pos(100, 200), &pos(150, 200), ResizeDirection::Left);
    assert_eq!(r, Bounds::new(150, 100, 350, 300));
}

#[test]
fn resize_from_bottom_right_grows() {
    let b = Bounds::new(0, 0, 400, 300);
    let r = calculate_resize_bounds(&b, &pos(400, 300), &pos(450, 340), ResizeDirection::BottomRight);
    assert_eq!(r, Bounds::new(0, 0, 450, 340));
}

#[test]
fn resize_never_goes_below_one_pixel() {
    let b = Bounds::new(0, 0, 100, 100);
    let r = calculate_resize_bounds(&b, &pos(100, 0), &pos(-500, 0), ResizeDirection::Right);
    assert_eq!(r.size.width, 1);
    let r = calculate_resize_bounds(&b, &pos(0, 0), &pos(0, 900), ResizeDirection::Top);
    assert_eq!(r.size.height, 1);
    assert_eq!(r.position.y, 900);
}

#[test]
fn symmetric_resize_keeps_the_centre() {
    let b = Bounds::new(100, 100, 400, 300);
    let r = calculate_resize_bounds_symmetric(&b, &pos(500, 250), &pos(520, 250), ResizeDirection::Right);
    assert_eq!(r, Bounds::new(80, 100, 440, 300));
    assert_eq!(r.position.x + r.size.width as i32 / 2, b.position.x + b.size.width as i32 / 2);
    let r = calculate_resize_bounds_symmetric(&b, &pos(100, 100), &pos(110, 120), ResizeDirection::TopLeft);
    assert_eq!(r, Bounds::new(110, 120, 380, 260));
}

#[test]
fn session_for_a_float_drag() {
    let mut s = ModTransformHandler::new();
    let start = ModTransformDragEvent::Start(7, pos(10, 10), ModTransformType::Float);
    let (a, e) = s.handle_drag_event(&start, Some(Bounds::new(0, 0, 100, 100)));
    assert_eq!(a, vec![HandlerAction::SetCursor(CursorType::Move)]);
    assert!(e.is_none());
    let drag = ModTransformDragEvent::Drag(7, pos(30, 15), ModTransformType::Float);
    assert!(s.event_fits(&drag));
    let (a, e) = s.handle_drag_event(&drag, Some(Bounds::new(0, 0, 100, 100)));
    assert!(e.is_none());
    assert_eq!(
        a,
        vec![
            HandlerAction::HidePreview,
            HandlerAction::FloatIfTiled(7),
            HandlerAction::SetBounds(7, Bounds::new(20, 5, 100, 100)),
            HandlerAction::Flush(7),
            HandlerAction::UpdateFloating(7),
        ]
    );
    let end = ModTransformDragEvent::End(7, pos(30, 15), ModTransformType::Float);
    let (a, _) = s.handle_drag_event(&end, None);
    assert_eq!(a, vec![HandlerAction::HidePreview, HandlerAction::ResetCursor]);
    assert!(s.drag_start_position.is_none() && s.drag_start_bounds.is_none());
}

#[test]
fn session_for_a_tile_drag_and_drop() {
    let mut s = ModTransformHandler::new();
    s.handle_drag_event(&ModTransformDragEvent::Start(1, pos(0, 0), ModTransformType::Tile), Some(Bounds::new(0, 0, 50, 50)));
    let (a, _) = s.handle_drag_event(&ModTransformDragEvent::Drag(1, pos(5, 6), ModTransformType::Tile), Some(Bounds::new(0, 0, 50, 50)));
    assert_eq!(
        a,
        vec![HandlerAction::UpdatePreview(1, pos(5, 6)), HandlerAction::SetPreviewBounds(1, Bounds::new(5, 6, 50, 50))]
    );
    let (a, _) = s.handle_drag_event(&ModTransformDragEvent::End(1, pos(5, 6), ModTransformType::Tile), None);
    assert_eq!(
        a,
        vec![HandlerAction::TileOnDrop(1, pos(5, 6)), HandlerAction::HidePreview, HandlerAction::ResetCursor]
    );
}

#[test]
fn session_resize_sets_and_clears_direction() {
    let mut s = ModTransformHandler::new();
    let t = ModTransformType::Resize(ResizeDirection::Left);
    let (a, _) = s.handle_drag_event(&ModTransformDragEvent::Start(2, pos(0, 50), t), Some(Bounds::new(0, 0, 200, 100)));
    assert_eq!(a, vec![HandlerAction::SetCursor(CursorType::ResizeEast)]);
    assert_eq!(s.resize_direction, Some(ResizeDirection::Left));
    let (a, _) = s.handle_drag_event(&ModTransformDragEvent::Drag(2, pos(20, 50), t), Some(Bounds::new(0, 0, 200, 100)));
    assert_eq!(a, vec![HandlerAction::HidePreview, HandlerAction::ResizeWindow(2, Bounds::new(20, 0, 180, 100))]);
    s.handle_drag_event(&ModTransformDragEvent::Cancel(2, t), None);
    assert_eq!(s.resize_direction, None);
}

#[test]
fn session_reports_missing_windows() {
    let mut s = ModTransformHandler::new();
    let (a, e) = s.handle_drag_event(&ModTransformDragEvent::Start(3, pos(0, 0), ModTransformType::Tile), None);
    assert!(a.is_empty());
    assert_eq!(e, Some(HandlerError::WindowNotFound(3)));
    // no drag in progress: a drag step does nothing, even for an unknown window
    let (a, e) = s.handle_drag_event(&ModTransformDragEvent::Drag(3, pos(1, 1), ModTransformType::Tile), None);
    assert!(a.is_empty() && e.is_none());
    let (_, e) = s.handle_drag_event(&ModTransformDragEvent::Cancel(3, ModTransformType::Tile), None);
    assert_eq!(e, Some(HandlerError::WindowNotFound(3)));
}

fn vhandle() -> ResizeHandle {
    ResizeHandle::new(pos(500, 300), 600, HandleOrientation::Vertical, 0, 1000, 3, 1)
}

#[test]
fn resize_handle_preview_and_clamp() {
    let h = vhandle();
    assert_eq!(h.preview_bounds(25), Bounds::new(488, 0, 25, 600));
    assert_eq!(h.clamp_coordinate(-5), 0);
    assert_eq!(h.clamp_coordinate(1200), 1000);
    assert_eq!(h.clamp_coordinate(640), 640);
    let hh = ResizeHandle::new(pos(400, 200), 800, HandleOrientation::Horizontal, 0, 400, 5, 2);
    assert_eq!(hh.preview_bounds(10), Bounds::new(0, 195, 800, 10));
}

#[test]
fn resize_handle_mode_from_buttons() {
    let b = ResizeHandleBindings::default();
    assert_eq!(ResizeHandleHandler::get_mode(&b, &input(&[], &[MouseButton::Left])), Some(ResizeMode::Before));
    assert_eq!(ResizeHandleHandler::get_mode(&b, &input(&[], &[MouseButton::Right])), Some(ResizeMode::After));
    assert_eq!(ResizeHandleHandler::get_mode(&b, &input(&[], &[MouseButton::Middle])), Some(ResizeMode::Evenly));
    assert_eq!(
        ResizeHandleHandler::get_mode(&b, &input(&[], &[MouseButton::Left, MouseButton::Middle])),
        Some(ResizeMode::BeforeSymmetric)
    );
    assert_eq!(ResizeHandleHandler::get_mode(&b, &input(&[], &[])), None);
}

#[test]
fn resize_handle_handler_hover_and_drag() {
    let mut h = ResizeHandleHandler::new(true, 25);
    let b = ResizeHandleBindings::default();
    let none = input(&[], &[]);
    let (a, taken) = h.handle_event(&WMEvent::MouseMoved(pos(500, 300)), &none, Some(vhandle()), false, true, &b);
    assert!(!taken);
    assert_eq!(a.len(), 3);
    assert!(matches!(a[0], ResizeHandleAction::ResetCursor));
    assert!(matches!(a[1], ResizeHandleAction::MoveOverlay(bb) if bb == Bounds::new(488, 0, 25, 600)));
    assert!(matches!(a[2], ResizeHandleAction::ShowOverlay));
    let left = input(&[], &[MouseButton::Left]);
    let (_, taken) = h.handle_event(&WMEvent::MouseDown(pos(500, 300), MouseButton::Left), &left, Some(vhandle()), false, true, &b);
    assert!(taken);
    let (a, taken) = h.handle_event(&WMEvent::MouseMoved(pos(1500, 300)), &left, None, false, true, &b);
    assert!(taken);
    // the overlay stops at the end of the handle's range
    assert!(a.iter().any(|x| matches!(x, ResizeHandleAction::MoveOverlay(bb) if bb.position.x == 1000 - 12)));
    assert!(a.iter().any(|x| matches!(x, ResizeHandleAction::HandleMoved(_, p, ResizeMode::Before) if *p == pos(1500, 300))));
    let (a, taken) = h.handle_event(&WMEvent::MouseUp(pos(700, 300), MouseButton::Left), &none, None, false, true, &b);
    assert!(taken);
    assert!(matches!(a[0], ResizeHandleAction::HideOverlay));
    assert_eq!(a.len(), 1);
}

#[test]
fn disabled_resize_handles_do_nothing() {
    let mut h = ResizeHandleHandler::new(false, 25);
    let (a, taken) = h.handle_event(&WMEvent::MouseMoved(pos(500, 300)), &input(&[], &[]), Some(vhandle()), true, true, &ResizeHandleBindings::default());
    assert!(a.is_empty() && !taken);
}

#[test]
fn focus_on_hover_throttles_and_skips_focused_window() {
    let mut h = FocusOnHoverHandler::new(true, 0);
    assert_eq!(h.mouse_moved(&pos(10, 10), 5, Some(1)), Some(1));
    h.focused(1);
    // too soon and too close: no check
    assert_eq!(h.mouse_moved(&pos(20, 20), 50, Some(2)), None);
    assert_eq!(h.last_check_position, Some(pos(10, 10)));
    // moved far: check, and window 2 is focused
    assert_eq!(h.mouse_moved(&pos(100, 20), 60, Some(2)), Some(2));
    h.focused(2);
    // enough time: check, but the window is already focused
    assert_eq!(h.mouse_moved(&pos(101, 20), 200, Some(2)), None);
    assert_eq!(h.last_check_time, 200);
}

#[test]
fn focus_on_hover_disabled_and_config_change() {
    let mut h = FocusOnHoverHandler::new(false, 0);
    assert_eq!(h.handle_event(&WMEvent::MouseMoved(pos(1, 1)), 10, Some(3), true), (None, false));
    let mut h = FocusOnHoverHandler::new(true, 0);
    assert_eq!(h.handle_event(&WMEvent::ConfigChanged, 10, None, false), (None, false));
    assert!(!h.enabled);
}

#[test]
fn context_menu_entries_for_window_and_desktop() {
    let (ctx, entries) = context_menu_entries(&ContextMenuRequest { position: pos(5, 5), target_window: Some(8) });
    assert_eq!(ctx, CommandContext::with_window(8));
    assert_eq!(entries.len(), 8);
    assert_eq!(entries[7], MenuEntry::Command(MenuCommand::MinimizeWindow));
    let (ctx, entries) = context_menu_entries(&ContextMenuRequest { position: pos(5, 5), target_window: None });
    assert_eq!(ctx, CommandContext::with_position(pos(5, 5)));
    assert_eq!(
        entries,
        vec![
            MenuEntry::Title,
            MenuEntry::Separator,
            MenuEntry::Command(MenuCommand::OrganizeCurrentWindow),
            MenuEntry::Command(MenuCommand::OrganizeAllWindows),
        ]
    );
}

#[test]
fn context_menu_opens_on_click_without_drag() {
    let binding = ModMouseKeybind::from_strs(&["ctrl+rmb"]);
    let mut h = ContextMenuHandler::new(binding.clone());
    let held = input(&[KeyCode::ControlLeft], &[MouseButton::Right]);
    h.handle_event(&WMEvent::MouseDown(pos(40, 40), MouseButton::Right), &held, Some(6), &binding);
    let ctrl = input(&[KeyCode::ControlLeft], &[]);
    let out = h.handle_event(&WMEvent::MouseUp(pos(41, 40), MouseButton::Right), &ctrl, Some(6), &binding);
    assert!(out.handled);
    assert_eq!(out.request, Some(ContextMenuRequest { position: pos(41, 40), target_window: Some(6) }));
}

#[test]
fn context_menu_stays_closed_after_a_drag() {
    let binding = ModMouseKeybind::from_strs(&["ctrl+rmb"]);
    let mut h = ContextMenuHandler::new(binding.clone());
    let held = input(&[KeyCode::ControlLeft], &[MouseButton::Right]);
    h.handle_event(&WMEvent::MouseDown(pos(40, 40), MouseButton::Right), &held, None, &binding);
    h.handle_event(&WMEvent::MouseMoved(pos(60, 40)), &held, None, &binding);
    let ctrl = input(&[KeyCode::ControlLeft], &[]);
    let out = h.handle_event(&WMEvent::MouseUp(pos(61, 40), MouseButton::Right), &ctrl, None, &binding);
    assert!(!out.handled);
    assert!(out.request.is_none());
}

#[test]
fn window_move_handler_previews_and_tiles() {
    let mut h = WindowMoveHandler::new();
    assert!(!h.overlay_shown());
    let b = Bounds::new(0, 0, 400, 300);
    let left = MouseButton::Left;
    assert_eq!(h.handle_event(&WMEvent::MouseDown(pos(10, 10), left), None, None), (None, false));
    h.handle_event(&WMEvent::WindowTransformStarted(5), Some(b), Some(pos(10, 10)));
    let moved = Bounds::new(50, 0, 400, 300);
    let (a, taken) = h.handle_event(&WMEvent::MouseMoved(pos(60, 10)), Some(moved), None);
    assert!(taken);
    assert_eq!(a, Some(PreviewAction::UpdatePreview(5, pos(60, 10))));
    let (a, taken) = h.handle_event(&WMEvent::MouseUp(pos(61, 10), left), None, None);
    assert!(taken);
    assert_eq!(a, Some(PreviewAction::TileOnDrop(5, pos(61, 10))));
    h.set_preview_shown(true);
    assert!(h.overlay_shown());
}

#[test]
fn native_transform_plans() {
    let h = NativeTransformHandler::new();
    assert!(!h.active());
    let drag = WindowDragEvent::Drag(2, pos(5, 5), WindowDragType::Move);
    assert_eq!(h.plan(&drag, Some(false)), Ok(vec![PreviewAction::UpdatePreview(2, pos(5, 5))]));
    assert_eq!(
        h.plan(&drag, Some(true)),
        Ok(vec![PreviewAction::UpdateBounds(2), PreviewAction::UpdateFloating(2)])
    );
    assert_eq!(h.plan(&drag, None), Err(HandlerError::WindowNotFound(2)));
    let end = WindowDragEvent::End(2, pos(5, 5), WindowDragType::Resize(ResizeDirection::Left));
    assert_eq!(h.plan(&end, Some(false)), Ok(vec![PreviewAction::ResizeToPlatformBounds(2)]));
    assert_eq!(h.plan(&end, Some(true)), Ok(vec![]));
}

#[test]
fn command_action_is_copyable() {
    let a = CommandAction::OrganizeAllWindows;
    let b = a;
    assert_eq!(a, b);
}
