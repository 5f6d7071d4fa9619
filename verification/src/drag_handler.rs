use vstd::prelude::*;
use crate::drag_tracker::{WindowDragEvent, WindowDragTracker, WindowDragType};
use crate::geometry::{Bounds, Position, WindowId};
use crate::platform::WMEvent;

verus! {

/// What the window manager does for a native drag, in order.
#[derive(Debug, Clone, Copy, PartialEq, Eq, Structural)]
pub enum PreviewAction {
    /// Show where the window would tile if dropped at the position.
    UpdatePreview(WindowId, Position),
    /// Tile the window where it was dropped.
    TileOnDrop(WindowId, Position),
    /// Read the window's bounds back from the platform.
    UpdateBounds(WindowId),
    UpdateFloating(WindowId),
    /// Resize the window in its layout to the bounds the platform reports.
    ResizeToPlatformBounds(WindowId),
}

/// Shows the tile preview while a window is moved with the platform's own
/// controls and tiles it where it is dropped.
#[derive(Debug)]
pub struct WindowMoveHandler {
    pub drag_tracker: WindowDragTracker,
    /// The tile preview is on screen.
    pub preview_shown: bool,
}

/// The action for a drag event of a window move, if any.
pub open spec fn spec_move_action(e: Option<WindowDragEvent>) -> Option<PreviewAction> {
    match e {
        Some(WindowDragEvent::Drag(id, pos, WindowDragType::Move)) => Some(PreviewAction::UpdatePreview(id, pos)),
        Some(WindowDragEvent::End(id, pos, WindowDragType::Move)) => Some(PreviewAction::TileOnDrop(id, pos)),
        _ => None,
    }
}

impl WindowMoveHandler {
    /// No drag in progress and no preview shown.
    pub fn new() -> (h: WindowMoveHandler)
        ensures
            !h.drag_tracker.left_mouse_down,
            h.drag_tracker.current_drag is None,
            !h.preview_shown,
    {
        WindowMoveHandler { drag_tracker: WindowDragTracker::new(), preview_shown: false }
    }

    /// The tile preview is on screen.
    pub fn overlay_shown(&self) -> (b: bool)
        ensures
            b == self.preview_shown,
    {
        self.preview_shown
    }

    /// Records whether the tile preview is on screen after the last action.
    pub fn set_preview_shown(&mut self, shown: bool)
        ensures
            final(self).preview_shown == shown,
            final(self).drag_tracker == old(self).drag_tracker,
    {
        self.preview_shown = shown;
    }

    /// Feeds `event` to the drag tracker: the preview action it calls for and
    /// whether the event was taken (a drag or a drop was reported).
    pub fn handle_event(&mut self, event: &WMEvent, window_bounds: Option<Bounds>, mouse: Option<Position>) -> (r: (
        Option<PreviewAction>,
        bool,
    ))
        requires
            old(self).drag_tracker.event_fits(*event, window_bounds),
        ensures
            final(self).preview_shown == old(self).preview_shown,
            ({
                let (t, e) = old(self).drag_tracker.spec_step(*event, window_bounds, mouse);
                &&& final(self).drag_tracker == t
                &&& r.0 == spec_move_action(e)
                &&& r.1 == (e matches Some(WindowDragEvent::Drag(..)) || e matches Some(WindowDragEvent::End(..)))
            }),
    {
        match self.drag_tracker.handle_event(event, window_bounds, mouse) {
            Some(WindowDragEvent::Drag(id, position, drag_type)) => (Self::drag(id, position, drag_type), true),
            Some(WindowDragEvent::End(id, position, drag_type)) => (Self::drop(id, position, drag_type), true),
            _ => (None, false),
        }
    }

    /// A step of a window move shows where the window would tile.
    fn drag(id: WindowId, position: Position, drag_type: WindowDragType) -> (r: Option<PreviewAction>)
        ensures
            r == spec_move_action(Some(WindowDragEvent::Drag(id, position, drag_type))),
    {
        if drag_type == WindowDragType::Move {
            Some(PreviewAction::UpdatePreview(id, position))
        } else {
            None
        }
    }

    /// The end of a window move tiles the window where it was dropped.
    fn drop(id: WindowId, position: Position, drag_type: WindowDragType) -> (r: Option<PreviewAction>)
        ensures
            r == spec_move_action(Some(WindowDragEvent::End(id, position, drag_type))),
    {
        if drag_type == WindowDragType::Move {
            Some(PreviewAction::TileOnDrop(id, position))
        } else {
            None
        }
    }
}

} // verus!
