use vstd::prelude::*;
use crate::drag_handler::PreviewAction;
use crate::drag_tracker::{WindowDragEvent, WindowDragTracker, WindowDragType};
use crate::event_handlers::mod_transform_handler::HandlerError;
use crate::geometry::{Position, WindowId};

verus! {

/// Follows windows moved or resized with the platform's own controls: floating
/// windows follow the platform, tiled ones are previewed, tiled on drop, or
/// resized in their layout.
#[derive(Debug)]
pub struct NativeTransformHandler {
    pub tracker: WindowDragTracker,
    /// The tile preview is on screen.
    pub preview_shown: bool,
}

/// The actions for drag event `e`, given whether the window it names floats
/// (`None` when the window manager does not know it), and whether the event
/// was taken; or the error.
pub open spec fn spec_native_plan(e: WindowDragEvent, floating: Option<bool>) -> Result<Seq<PreviewAction>, HandlerError> {
    match e {
        WindowDragEvent::Drag(id, pos, t) => match floating {
            None => Err(HandlerError::WindowNotFound(id)),
            Some(true) => Ok(seq![PreviewAction::UpdateBounds(id), PreviewAction::UpdateFloating(id)]),
            Some(false) => Ok(
                if t == WindowDragType::Move {
                    seq![PreviewAction::UpdatePreview(id, pos)]
                } else {
                    Seq::empty()
                },
            ),
        },
        WindowDragEvent::End(id, pos, t) => match floating {
            None => Err(HandlerError::WindowNotFound(id)),
            Some(true) => Ok(Seq::empty()),
            Some(false) => Ok(
                match t {
                    WindowDragType::Move => seq![PreviewAction::TileOnDrop(id, pos)],
                    WindowDragType::Resize(_) => seq![PreviewAction::ResizeToPlatformBounds(id)],
                },
            ),
        },
        WindowDragEvent::Start(..) => Ok(Seq::empty()),
    }
}

impl NativeTransformHandler {
    /// No drag in progress and no preview shown.
    pub fn new() -> (h: NativeTransformHandler)
        ensures
            !h.tracker.left_mouse_down,
            h.tracker.current_drag is None,
            !h.preview_shown,
    {
        NativeTransformHandler { tracker: WindowDragTracker::new(), preview_shown: false }
    }

    /// The tile preview is on screen.
    pub fn overlay_shown(&self) -> (b: bool)
        ensures
            b == self.preview_shown,
    {
        self.preview_shown
    }

    /// Records whether the tile preview is on screen after the last action.
    pub fn set_preview_shown(&mut self, shown: bool)
        ensures
            final(self).preview_shown == shown,
            final(self).tracker == old(self).tracker,
    {
        self.preview_shown = shown;
    }

    /// A native drag is in progress.
    pub fn active(&self) -> (b: bool)
        ensures
            b == self.tracker.current_drag is Some,
    {
        self.tracker.current_drag.is_some()
    }

    /// The actions for a drag event reported by the tracker. `floating` says
    /// whether the window it names floats, `None` when it is not known.
    pub fn plan(&self, e: &WindowDragEvent, floating: Option<bool>) -> (r: Result<Vec<PreviewAction>, HandlerError>)
        ensures
            match (r, spec_native_plan(*e, floating)) {
                (Ok(v), Ok(s)) => v@ == s,
                (Err(x), Err(y)) => x == y,
                _ => false,
            },
    {
        match *e {
            WindowDragEvent::Drag(id, position, drag_type) => Self::drag(id, position, drag_type, floating),
            WindowDragEvent::End(id, position, drag_type) => Self::drop(id, position, drag_type, floating),
            WindowDragEvent::Start(..) => Ok(Vec::new()),
        }
    }

    /// A step of a native drag: a floating window's bounds are read back, a
    /// tiled window being moved gets the tile preview.
    fn drag(id: WindowId, position: Position, drag_type: WindowDragType, floating: Option<bool>) -> (r: Result<
        Vec<PreviewAction>,
        HandlerError,
    >)
        ensures
            match (r, spec_native_plan(WindowDragEvent::Drag(id, position, drag_type), floating)) {
                (Ok(v), Ok(s)) => v@ == s,
                (Err(x), Err(y)) => x == y,
                _ => false,
            },
    {
        match floating {
            None => Err(HandlerError::WindowNotFound(id)),
            Some(true) => Ok(vec![PreviewAction::UpdateBounds(id), PreviewAction::UpdateFloating(id)]),
            Some(false) => {
                if drag_type == WindowDragType::Move {
                    Ok(vec![PreviewAction::UpdatePreview(id, position)])
                } else {
                    Ok(Vec::new())
                }
            },
        }
    }

    /// The end of a native drag: a tiled window that was moved is tiled where
    /// it was dropped, one that was resized takes the size the platform reports.
    fn drop(id: WindowId, position: Position, drag_type: WindowDragType, floating: Option<bool>) -> (r: Result<
        Vec<PreviewAction>,
        HandlerError,
    >)
        ensures
            match (r, spec_native_plan(WindowDragEvent::End(id, position, drag_type), floating)) {
                (Ok(v), Ok(s)) => v@ == s,
                (Err(x), Err(y)) => x == y,
                _ => false,
            },
    {
        match floating {
            None => Err(HandlerError::WindowNotFound(id)),
            Some(true) => Ok(Vec::new()),
            Some(false) => match drag_type {
                WindowDragType::Move => Ok(vec![PreviewAction::TileOnDrop(id, position)]),
                WindowDragType::Resize(_) => Ok(vec![PreviewAction::ResizeToPlatformBounds(id)]),
            },
        }
    }
}

} // verus!
