use vstd::prelude::*;
use crate::geometry::Position;
use crate::input::MouseButton;
use crate::platform::WMEvent;
use crate::resize_handle::DragHandle;

verus! {

/// A stage of dragging a layout handle with the left mouse button.
#[derive(Debug, Clone, Copy)]
pub enum HandleDragEvent {
    Start(DragHandle, Position),
    Drag(DragHandle, Position),
    End(DragHandle, Position),
}

/// Follows left-button drags that begin on a layout handle.
#[derive(Debug)]
pub struct HandleDragTracker {
    pub active_handle: Option<DragHandle>,
    pub dragging: bool,
}

/// The tracker state and event after `event`, where `handle_at` is the handle
/// under the event's position, if any.
pub open spec fn spec_handle_drag_step(
    active: Option<DragHandle>,
    dragging: bool,
    event: WMEvent,
    handle_at: Option<DragHandle>,
) -> (Option<DragHandle>, bool, Option<HandleDragEvent>) {
    match event {
        WMEvent::MouseMoved(pos) => if dragging {
            match active {
                Some(h) => (active, dragging, Some(HandleDragEvent::Drag(h, pos))),
                None => (active, dragging, None),
            }
        } else {
            (active, dragging, None)
        },
        WMEvent::MouseDown(pos, MouseButton::Left) => if dragging {
            (active, dragging, None)
        } else {
            match handle_at {
                Some(h) => (Some(h), true, Some(HandleDragEvent::Start(h, pos))),
                None => (active, dragging, None),
            }
        },
        WMEvent::MouseUp(pos, MouseButton::Left) => if dragging {
            match active {
                Some(h) => (None, false, Some(HandleDragEvent::End(h, pos))),
                None => (None, false, None),
            }
        } else {
            (active, dragging, None)
        },
        _ => (active, dragging, None),
    }
}

impl HandleDragTracker {
    /// No drag in progress.
    pub fn new() -> (t: HandleDragTracker)
        ensures
            t.active_handle is None,
            !t.dragging,
    {
        HandleDragTracker { active_handle: None, dragging: false }
    }

    /// Updates the drag for `event`. `handle_at` is the layout handle under the
    /// event's position, as the window manager finds it.
    pub fn handle_event(&mut self, event: &WMEvent, handle_at: Option<DragHandle>) -> (r: Option<HandleDragEvent>)
        ensures
            (final(self).active_handle, final(self).dragging, r) == spec_handle_drag_step(
                old(self).active_handle,
                old(self).dragging,
                *event,
                handle_at,
            ),
    {
        match event {
            WMEvent::MouseMoved(pos) => {
                if self.dragging {
                    return match self.active_handle {
                        Some(h) => Some(HandleDragEvent::Drag(h, *pos)),
                        None => None,
                    };
                }
            },
            WMEvent::MouseDown(pos, MouseButton::Left) => {
                if self.dragging {
                    return None;
                }
                if let Some(h) = handle_at {
                    self.dragging = true;
                    self.active_handle = Some(h);
                    return Some(HandleDragEvent::Start(h, *pos));
                }
            },
            WMEvent::MouseUp(pos, MouseButton::Left) => {
                if self.dragging {
                    self.dragging = false;
                    if let Some(h) = self.active_handle.take() {
                        return Some(HandleDragEvent::End(h, *pos));
                    }
                }
            },
            _ => {},
        }
        None
    }
}

} // verus!
