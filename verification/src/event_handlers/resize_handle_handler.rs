use vstd::prelude::*;
use crate::config::config::ResizeHandleBindings;
use crate::config::keybind::buttons_match;
use crate::config::input_combo::ComboView;
use crate::event_handlers::mod_transform_handler::CursorType;
use crate::event_handlers::resize_handle_tracker::{
    resize_event_view, spec_resize_handle_step, ResizeHandleEvent, ResizeHandleTracker,
};
use crate::geometry::{div_trunc, Bounds, Position};
use crate::input::MouseButton;
use crate::platform::{InputState, WMEvent};
use crate::resize_handle::{
    spec_clamp, spec_preview_bounds, HandleGeometry, HandleOrientation, ResizeHandle, ResizeMode,
};

verus! {

/// What the window manager does for the resize handles, in order.
#[derive(Debug, Clone, Copy)]
pub enum ResizeHandleAction {
    SetCursor(CursorType),
    ResetCursor,
    MoveOverlay(Bounds),
    ShowOverlay,
    HideOverlay,
    /// Resize the layout around the handle, dragged to the position.
    HandleMoved(ResizeHandle, Position, ResizeMode),
}

/// Some combo of the binding has exactly the buttons held.
pub open spec fn binding_held(kb: Seq<ComboView>, buttons: Seq<MouseButton>) -> bool {
    exists|i: int| 0 <= i < kb.len() && buttons_match(#[trigger] kb[i], buttons)
}

/// The resize mode of the first binding, in the order evenly, before, after,
/// before symmetric, after symmetric, whose buttons are held.
pub open spec fn spec_mode(
    evenly: Seq<ComboView>,
    before: Seq<ComboView>,
    after: Seq<ComboView>,
    before_sym: Seq<ComboView>,
    after_sym: Seq<ComboView>,
    buttons: Seq<MouseButton>,
) -> Option<ResizeMode> {
    if binding_held(evenly, buttons) {
        Some(ResizeMode::Evenly)
    } else if binding_held(before, buttons) {
        Some(ResizeMode::Before)
    } else if binding_held(after, buttons) {
        Some(ResizeMode::After)
    } else if binding_held(before_sym, buttons) {
        Some(ResizeMode::BeforeSymmetric)
    } else if binding_held(after_sym, buttons) {
        Some(ResizeMode::AfterSymmetric)
    } else {
        None
    }
}

/// The resize mode that the held buttons select under the bindings.
pub open spec fn bindings_mode(b: ResizeHandleBindings, buttons: Seq<MouseButton>) -> Option<ResizeMode> {
    spec_mode(
        b.resize_evenly@,
        b.resize_before@,
        b.resize_after@,
        b.resize_before_symmetric@,
        b.resize_after_symmetric@,
        buttons,
    )
}

/// The overlay shown while dragging a handle to `pos`: the handle's preview,
/// moved across the handle to the coordinate held within its range.
pub open spec fn spec_drag_preview(g: HandleGeometry, pos: Position, width: u32) -> Bounds {
    let pb = spec_preview_bounds(g, width);
    match g.orientation {
        HandleOrientation::Vertical => Bounds {
            position: Position {
                x: (spec_clamp(g, pos.x as int) - div_trunc((pb.size.width as i32) as int, 2)) as i32,
                y: pb.position.y,
            },
            size: pb.size,
        },
        HandleOrientation::Horizontal => Bounds {
            position: Position {
                x: pb.position.x,
                y: (spec_clamp(g, pos.y as int) - div_trunc((pb.size.height as i32) as int, 2)) as i32,
            },
            size: pb.size,
        },
    }
}

/// The cursor action for a mouse move: over a window's resize edge the normal
/// cursor is forced, elsewhere the cursor is reset.
pub open spec fn cursor_action(at_resize_edge: bool) -> ResizeHandleAction {
    if at_resize_edge {
        ResizeHandleAction::SetCursor(CursorType::Normal)
    } else {
        ResizeHandleAction::ResetCursor
    }
}

/// Shows the resize handles under the mouse and turns their drags into layout resizes.
#[derive(Debug)]
pub struct ResizeHandleHandler {
    pub tracker: ResizeHandleTracker,
    pub hover_resize_handle: Option<ResizeHandle>,
    pub handles_enabled: bool,
    pub handle_width: u32,
}

impl ResizeHandleHandler {
    /// A handler at rest; `handles_enabled` and `handle_width` come from the configuration.
    pub fn new(handles_enabled: bool, handle_width: u32) -> (h: ResizeHandleHandler)
        ensures
            h.handles_enabled == handles_enabled,
            h.handle_width == handle_width,
            h.hover_resize_handle is None,
            h.tracker.active_handle is None,
            !h.tracker.dragging,
    {
        ResizeHandleHandler {
            tracker: ResizeHandleTracker::new(),
            hover_resize_handle: None,
            handles_enabled,
            handle_width,
        }
    }

    /// The resize mode selected by the held mouse buttons, if any.
    pub fn get_mode(bindings: &ResizeHandleBindings, input: &InputState) -> (m: Option<ResizeMode>)
        ensures
            m == bindings_mode(*bindings, input.buttons@),
    {
        if input.binding_matches_mouse(&bindings.resize_evenly) {
            Some(ResizeMode::Evenly)
        } else if input.binding_matches_mouse(&bindings.resize_before) {
            Some(ResizeMode::Before)
        } else if input.binding_matches_mouse(&bindings.resize_after) {
            Some(ResizeMode::After)
        } else if input.binding_matches_mouse(&bindings.resize_before_symmetric) {
            Some(ResizeMode::BeforeSymmetric)
        } else if input.binding_matches_mouse(&bindings.resize_after_symmetric) {
            Some(ResizeMode::AfterSymmetric)
        } else {
            None
        }
    }

    /// The overlay for a handle dragged to `pos`.
    pub fn drag_preview(&self, handle: &ResizeHandle, pos: &Position) -> (b: Bounds)
        ensures
            b == spec_drag_preview(handle@, *pos, self.handle_width),
    {
        let g = handle.geometry();
        let mut preview_bounds = handle.preview_bounds(self.handle_width);
        if handle.orientation() == HandleOrientation::Vertical {
            let clamped_x = handle.clamp_coordinate(pos.x);
            preview_bounds.position.x = clamped_x - (preview_bounds.size.width as i32 / 2);
        } else {
            let clamped_y = handle.clamp_coordinate(pos.y);
            preview_bounds.position.y = clamped_y - (preview_bounds.size.height as i32 / 2);
        }
        preview_bounds
    }

    /// Updates the hover state for a mouse move to `pos`. `at_resize_edge` says
    /// whether the mouse is on the resize edge of a window; `under` is the
    /// resize handle under the mouse.
    pub fn mouse_moved(&mut self, at_resize_edge: bool, under: Option<ResizeHandle>) -> (r: Vec<ResizeHandleAction>)
        ensures
            final(self).tracker == old(self).tracker,
            final(self).handles_enabled == old(self).handles_enabled,
            final(self).handle_width == old(self).handle_width,
            match (under, old(self).hover_resize_handle) {
                (Some(h), None) => {
                    &&& final(self).hover_resize_handle == Some(h)
                    &&& r@ == seq![
                        cursor_action(at_resize_edge),
                        ResizeHandleAction::MoveOverlay(spec_preview_bounds(h@, old(self).handle_width)),
                        ResizeHandleAction::ShowOverlay,
                    ]
                },
                (None, Some(_)) => {
                    &&& final(self).hover_resize_handle is None
                    &&& r@ == seq![cursor_action(at_resize_edge)] + if old(self).tracker.dragging {
                        Seq::empty()
                    } else {
                        seq![ResizeHandleAction::HideOverlay]
                    }
                },
                _ => {
                    &&& final(self).hover_resize_handle == old(self).hover_resize_handle
                    &&& r@ == seq![cursor_action(at_resize_edge)]
                },
            },
    {
        let mut actions: Vec<ResizeHandleAction> = Vec::new();
        if at_resize_edge {
            actions.push(ResizeHandleAction::SetCursor(CursorType::Normal));
        } else {
            actions.push(ResizeHandleAction::ResetCursor);
        }
        match (under, self.hover_resize_handle) {
            (Some(h), None) => {
                self.hover_resize_handle = Some(h);
                let preview_bounds = h.preview_bounds(self.handle_width);
                actions.push(ResizeHandleAction::MoveOverlay(preview_bounds));
                actions.push(ResizeHandleAction::ShowOverlay);
            },
            (None, Some(_)) => {
                self.hover_resize_handle = None;
                if !self.tracker.active() {
                    actions.push(ResizeHandleAction::HideOverlay);
                }
            },
            _ => {},
        }
        actions
    }
}


/// The actions for a drag event of kind `k` (0 start, 1 drag, 2 end) on handle
/// `g` at `pos`, with overlay thickness `width`, live resizing on or off, and the
/// resize mode the held buttons select.
pub open spec fn spec_drag_event_actions(
    k: int,
    h: ResizeHandle,
    pos: Position,
    width: u32,
    live_resize: bool,
    mode: Option<ResizeMode>,
) -> Seq<ResizeHandleAction> {
    let moved = match mode {
        Some(m) => seq![ResizeHandleAction::HandleMoved(h, pos, m)],
        None => Seq::empty(),
    };
    if k == 0 {
        seq![ResizeHandleAction::MoveOverlay(spec_preview_bounds(h@, width)), ResizeHandleAction::ShowOverlay]
    } else if k == 1 {
        seq![ResizeHandleAction::MoveOverlay(spec_drag_preview(h@, pos, width)), ResizeHandleAction::ShowOverlay]
            + if live_resize { moved } else { Seq::empty() }
    } else {
        seq![ResizeHandleAction::HideOverlay] + moved
    }
}

impl ResizeHandleHandler {
    /// Handles `event`: the actions to carry out and whether the event was taken.
    /// `handle_at` is the resize handle under the event's position,
    /// `at_resize_edge` whether that position is on a window's resize edge, and
    /// `live_resize` whether windows follow a handle while it is dragged.
    pub fn handle_event(
        &mut self,
        event: &WMEvent,
        input: &InputState,
        handle_at: Option<ResizeHandle>,
        at_resize_edge: bool,
        live_resize: bool,
        bindings: &ResizeHandleBindings,
    ) -> (r: (Vec<ResizeHandleAction>, bool))
        ensures
            final(self).handles_enabled == old(self).handles_enabled,
            final(self).handle_width == old(self).handle_width,
            !old(self).handles_enabled ==> r.0@.len() == 0 && !r.1 && final(self).tracker == old(self).tracker,
            old(self).handles_enabled ==> ({
                let hover_actions = match *event {
                    WMEvent::MouseMoved(_) => match (handle_at, old(self).hover_resize_handle) {
                        (Some(h), None) => seq![
                            cursor_action(at_resize_edge),
                            ResizeHandleAction::MoveOverlay(spec_preview_bounds(h@, old(self).handle_width)),
                            ResizeHandleAction::ShowOverlay,
                        ],
                        (None, Some(_)) => seq![cursor_action(at_resize_edge)] + if old(self).tracker.dragging {
                            Seq::empty()
                        } else {
                            seq![ResizeHandleAction::HideOverlay]
                        },
                        _ => seq![cursor_action(at_resize_edge)],
                    },
                    _ => Seq::empty(),
                };
                let (a, d, e) = spec_resize_handle_step(
                    old(self).tracker.active_handle,
                    old(self).tracker.dragging,
                    *event,
                    handle_at,
                    input.buttons@.len() > 0,
                );
                &&& final(self).tracker.active_handle == a
                &&& final(self).tracker.dragging == d
                &&& match e {
                    Some((k, h, p)) => {
                        &&& r.0@ == hover_actions + spec_drag_event_actions(
                            k,
                            h,
                            p,
                            old(self).handle_width,
                            live_resize,
                            bindings_mode(*bindings, input.buttons@),
                        )
                        &&& r.1
                    },
                    None => r.0@ == hover_actions && r.1 == d,
                }
            }),
    {
        if !self.handles_enabled {
            return (Vec::new(), false);
        }
        let mut actions: Vec<ResizeHandleAction> = match event {
            WMEvent::MouseMoved(_) => self.mouse_moved(at_resize_edge, handle_at),
            _ => Vec::new(),
        };
        let ghost hover_actions = actions@;
        let ev = self.tracker.handle_event(event, handle_at, input);
        match ev {
            Some(ResizeHandleEvent::Start(h, pos, _)) => {
                self.start(&mut actions, h, pos);
                (actions, true)
            },
            Some(ResizeHandleEvent::Drag(h, pos, _)) => {
                self.drag(&mut actions, h, pos, live_resize, bindings, input);
                (actions, true)
            },
            Some(ResizeHandleEvent::End(h, pos, _)) => {
                Self::drop(&mut actions, h, pos, bindings, input);
                (actions, true)
            },
            None => {
                let active = self.tracker.active();
                (actions, active)
            },
        }
    }
    /// A handle drag starts: the overlay shows where the handle is.
    fn start(&self, actions: &mut Vec<ResizeHandleAction>, h: ResizeHandle, pos: Position)
        ensures
            final(actions)@ == old(actions)@ + spec_drag_event_actions(0, h, pos, self.handle_width, false, None),
    {
        let preview_bounds = h.preview_bounds(self.handle_width);
        actions.push(ResizeHandleAction::MoveOverlay(preview_bounds));
        actions.push(ResizeHandleAction::ShowOverlay);
        assert(actions@ =~= old(actions)@ + spec_drag_event_actions(0, h, pos, self.handle_width, false, None));
    }

    /// A step of a handle drag: the overlay follows the mouse along the
    /// handle's axis and, with live resizing, the windows follow too.
    fn drag(
        &self,
        actions: &mut Vec<ResizeHandleAction>,
        h: ResizeHandle,
        pos: Position,
        live_resize: bool,
        bindings: &ResizeHandleBindings,
        input: &InputState,
    )
        ensures
            final(actions)@ == old(actions)@ + spec_drag_event_actions(
                1,
                h,
                pos,
                self.handle_width,
                live_resize,
                bindings_mode(*bindings, input.buttons@),
            ),
    {
        let preview_bounds = self.drag_preview(&h, &pos);
        actions.push(ResizeHandleAction::MoveOverlay(preview_bounds));
        actions.push(ResizeHandleAction::ShowOverlay);
        if live_resize {
            if let Some(mode) = Self::get_mode(bindings, input) {
                actions.push(ResizeHandleAction::HandleMoved(h, pos, mode));
            }
        }
        assert(actions@ =~= old(actions)@ + spec_drag_event_actions(
            1,
            h,
            pos,
            self.handle_width,
            live_resize,
            bindings_mode(*bindings, input.buttons@),
        ));
    }

    /// A handle drag ends: the overlay hides and the windows take their new sizes.
    fn drop(
        actions: &mut Vec<ResizeHandleAction>,
        h: ResizeHandle,
        pos: Position,
        bindings: &ResizeHandleBindings,
        input: &InputState,
    )
        ensures
            forall|w: u32, live: bool|
                final(actions)@ == old(actions)@ + #[trigger] spec_drag_event_actions(
                    2,
                    h,
                    pos,
                    w,
                    live,
                    bindings_mode(*bindings, input.buttons@),
                ),
    {
        actions.push(ResizeHandleAction::HideOverlay);
        if let Some(mode) = Self::get_mode(bindings, input) {
            actions.push(ResizeHandleAction::HandleMoved(h, pos, mode));
        }
        assert forall|w: u32, live: bool|
            actions@ == old(actions)@ + #[trigger] spec_drag_event_actions(
                2,
                h,
                pos,
                w,
                live,
                bindings_mode(*bindings, input.buttons@),
            ) by {
            assert(actions@ =~= old(actions)@ + spec_drag_event_actions(
                2,
                h,
                pos,
                w,
                live,
                bindings_mode(*bindings, input.buttons@),
            ));
        }
    }
}

} // verus!
