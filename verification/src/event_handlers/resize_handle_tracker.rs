use vstd::prelude::*;
use crate::geometry::Position;
use crate::input::MouseButtons;
use crate::platform::{InputState, WMEvent};
use crate::resize_handle::ResizeHandle;

verus! {

/// A stage of dragging a resize handle, with the buttons the drag is made with.
#[derive(Debug, Clone)]
pub enum ResizeHandleEvent {
    Start(ResizeHandle, Position, MouseButtons),
    Drag(ResizeHandle, Position, MouseButtons),
    End(ResizeHandle, Position, MouseButtons),
}

/// The handle, position and buttons of an event, as plain values.
pub open spec fn resize_event_view(e: ResizeHandleEvent) -> (int, ResizeHandle, Position, Seq<crate::input::MouseButton>) {
    match e {
        ResizeHandleEvent::Start(h, p, b) => (0, h, p, b@),
        ResizeHandleEvent::Drag(h, p, b) => (1, h, p, b@),
        ResizeHandleEvent::End(h, p, b) => (2, h, p, b@),
    }
}

/// Follows mouse drags that begin on a resize handle.
#[derive(Debug)]
pub struct ResizeHandleTracker {
    pub active_handle: Option<ResizeHandle>,
    pub dragging: bool,
    pub drag_buttons: MouseButtons,
}

/// The tracker state after `event`, and the kind, handle and position of the
/// event it reports (0 start, 1 drag, 2 end). `handle_at` is the handle under the
/// event's position; `any_pressed` says whether any mouse button is still held.
pub open spec fn spec_resize_handle_step(
    active: Option<ResizeHandle>,
    dragging: bool,
    event: WMEvent,
    handle_at: Option<ResizeHandle>,
    any_pressed: bool,
) -> (Option<ResizeHandle>, bool, Option<(int, ResizeHandle, Position)>) {
    match event {
        WMEvent::MouseMoved(pos) => if dragging {
            match active {
                Some(h) => (active, dragging, Some((1, h, pos))),
                None => (active, dragging, None),
            }
        } else {
            (active, dragging, None)
        },
        WMEvent::MouseDown(pos, _) => match handle_at {
            Some(h) => (Some(h), true, Some((0, h, pos))),
            None => (active, dragging, None),
        },
        WMEvent::MouseUp(pos, _) => if !any_pressed {
            match active {
                Some(h) => (None, false, Some((2, h, pos))),
                None => (None, false, None),
            }
        } else {
            (active, dragging, None)
        },
        _ => (active, dragging, None),
    }
}

impl ResizeHandleTracker {
    /// No drag in progress.
    pub fn new() -> (t: ResizeHandleTracker)
        ensures
            t.active_handle is None,
            !t.dragging,
            t.drag_buttons@.len() == 0,
    {
        ResizeHandleTracker { active_handle: None, dragging: false, drag_buttons: MouseButtons::new() }
    }

    /// A drag is in progress.
    pub fn active(&self) -> (b: bool)
        ensures
            b == self.dragging,
    {
        self.dragging
    }

    /// Updates the drag for `event`. `handle_at` is the resize handle under the
    /// event's position, as the window manager finds it; `input` is what is held.
    pub fn handle_event(&mut self, event: &WMEvent, handle_at: Option<ResizeHandle>, input: &InputState) -> (r:
        Option<ResizeHandleEvent>)
        ensures
            final(self).drag_buttons@ == old(self).drag_buttons@,
            ({
                let (a, d, e) = spec_resize_handle_step(
                    old(self).active_handle,
                    old(self).dragging,
                    *event,
                    handle_at,
                    input.buttons@.len() > 0,
                );
                &&& final(self).active_handle == a
                &&& final(self).dragging == d
                &&& match (e, r) {
                    (None, None) => true,
                    (Some((k, h, p)), Some(ev)) => resize_event_view(ev) == (k, h, p, old(self).drag_buttons@),
                    _ => false,
                }
            }),
    {
        match event {
            WMEvent::MouseMoved(pos) => {
                if self.dragging {
                    return match self.active_handle {
                        Some(h) => Some(ResizeHandleEvent::Drag(h, *pos, self.drag_buttons.clone())),
                        None => None,
                    };
                }
            },
            WMEvent::MouseDown(pos, _) => {
                if let Some(h) = handle_at {
                    self.dragging = true;
                    self.active_handle = Some(h);
                    return Some(ResizeHandleEvent::Start(h, *pos, self.drag_buttons.clone()));
                }
            },
            WMEvent::MouseUp(pos, _) => {
                if !input.buttons.any() {
                    self.dragging = false;
                    if let Some(h) = self.active_handle.take() {
                        let final_drag_buttons = self.drag_buttons.clone();
                        return Some(ResizeHandleEvent::End(h, *pos, final_drag_buttons));
                    }
                }
            },
            _ => {},
        }
        None
    }

    /// The buttons the current drag is made with.
    pub fn get_drag_buttons(&self) -> (b: &MouseButtons)
        ensures
            b@ == self.drag_buttons@,
    {
        &self.drag_buttons
    }
}


/// One input to the tracker: the event, the handle under its position, and
/// whether any mouse button is still held.
pub type ResizeHandleInput = (WMEvent, Option<ResizeHandle>, bool);

/// The tracker's handle and drag flag after `inputs`, starting from a new
/// tracker, and the kinds (0 start, 1 drag, 2 end) of the events it reported.
pub open spec fn spec_resize_handle_run(inputs: Seq<ResizeHandleInput>) -> (Option<ResizeHandle>, bool, Seq<int>)
    decreases inputs.len(),
{
    if inputs.len() == 0 {
        (None, false, Seq::empty())
    } else {
        let (a, d, kinds) = spec_resize_handle_run(inputs.drop_last());
        let (e, h, p) = inputs.last();
        let (a2, d2, r) = spec_resize_handle_step(a, d, e, h, p);
        (a2, d2, match r {
            Some((k, _, _)) => kinds.push(k),
            None => kinds,
        })
    }
}

/// The last start or end among `kinds` is a start (false when there is none).
pub open spec fn last_start_or_end_is_start(kinds: Seq<int>) -> bool
    decreases kinds.len(),
{
    if kinds.len() == 0 {
        false
    } else if kinds.last() == 0 {
        true
    } else if kinds.last() == 2 {
        false
    } else {
        last_start_or_end_is_start(kinds.drop_last())
    }
}

/// From a new tracker, after any inputs, a drag is in progress exactly when the
/// last start or end it reported was a start, and it holds a handle exactly
/// when a drag is in progress.
pub proof fn lemma_active_follows_starts(inputs: Seq<ResizeHandleInput>)
    ensures
        ({
            let (a, d, kinds) = spec_resize_handle_run(inputs);
            &&& d == last_start_or_end_is_start(kinds)
            &&& (a is Some) == d
        }),
    decreases inputs.len(),
{
    if inputs.len() > 0 {
        lemma_active_follows_starts(inputs.drop_last());
        let (a, d, kinds) = spec_resize_handle_run(inputs.drop_last());
        let (e, h, p) = inputs.last();
        let (a2, d2, r) = spec_resize_handle_step(a, d, e, h, p);
        match r {
            Some((k, _, _)) => {
                assert(kinds.push(k).drop_last() =~= kinds);
            },
            None => {},
        }
    }
}

} // verus!
