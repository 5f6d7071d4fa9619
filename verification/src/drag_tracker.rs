use vstd::prelude::*;
use crate::geometry::{bottom_edge, edges_fit, right_edge, Bounds, Position, WindowId};
use crate::input::MouseButton;
use crate::layouts::ResizeDirection;
use crate::platform::WMEvent;

verus! {

/// A native move or resize as seen by the window manager.
#[derive(Debug, Clone, Copy, PartialEq, Eq, Structural)]
pub enum WindowDragEvent {
    Start(WindowId, Position, WindowDragType),
    Drag(WindowId, Position, WindowDragType),
    End(WindowId, Position, WindowDragType),
}

/// Whether a native drag moves the window or resizes it (and from which edge).
#[derive(Debug, Clone, Copy, PartialEq, Eq, Structural)]
pub enum WindowDragType {
    Move,
    Resize(ResizeDirection),
}

/// How far (in pixels, on either axis) the mouse must travel before the kind of drag is decided.
pub const DRAG_TYPE_DETERMINATION_THRESHOLD: i32 = 5;

/// The drag in progress: the window, its kind once known, and where it started.
#[derive(Debug, Clone, Copy, PartialEq, Eq, Structural)]
pub struct DragContext {
    pub window: WindowId,
    pub drag_type: Option<WindowDragType>,
    pub start_position: Position,
    pub start_bounds: Bounds,
}

/// Follows native window drags: a drag starts when the platform reports a
/// transform while the left button is down, becomes a move or a resize once the
/// mouse has travelled past the threshold and the window has changed, and ends
/// when the left button is released.
#[derive(Debug, Clone, Copy, PartialEq, Eq, Structural)]
pub struct WindowDragTracker {
    pub left_mouse_down: bool,
    pub current_drag: Option<DragContext>,
}

pub open spec fn abs_int(v: int) -> int {
    if v < 0 {
        -v
    } else {
        v
    }
}

/// The absolute value of `v` (which must not be `i32::MIN`).
pub fn abs_i32(v: i32) -> (r: i32)
    requires
        v != i32::MIN,
    ensures
        r == abs_int(v as int),
{
    if v < 0 {
        -v
    } else {
        v
    }
}

fn edges_in_range(b: &Bounds) -> (r: bool)
    ensures
        r == edges_fit(*b),
{
    let right = b.position.x as i64 + b.size.width as i32 as i64;
    let bottom = b.position.y as i64 + b.size.height as i32 as i64;
    -2147483648 <= right && right <= 2147483647 && -2147483648 <= bottom && bottom <= 2147483647
}

/// The resize direction inferred from which edges moved between `old` and `new`.
pub open spec fn spec_resize_direction(old: Bounds, new: Bounds) -> ResizeDirection {
    let l = new.position.x != old.position.x;
    let r = right_edge(new) != right_edge(old);
    let t = new.position.y != old.position.y;
    let b = bottom_edge(new) != bottom_edge(old);
    if l && !r && !t && !b {
        ResizeDirection::Left
    } else if !l && r && !t && !b {
        ResizeDirection::Right
    } else if !l && !r && t && !b {
        ResizeDirection::Top
    } else if !l && !r && !t && b {
        ResizeDirection::Bottom
    } else if l && !r && t && !b {
        ResizeDirection::TopLeft
    } else if !l && r && t && !b {
        ResizeDirection::TopRight
    } else if l && !r && !t && b {
        ResizeDirection::BottomLeft
    } else if !l && r && !t && b {
        ResizeDirection::BottomRight
    } else {
        ResizeDirection::Right
    }
}

/// The mouse has left the dead zone around the start position.
pub open spec fn past_threshold(start: Position, pos: Position) -> bool {
    abs_int(pos.x - start.x) > DRAG_TYPE_DETERMINATION_THRESHOLD || abs_int(pos.y - start.y)
        > DRAG_TYPE_DETERMINATION_THRESHOLD
}

/// The drag type decided from the start bounds and the window's current bounds
/// (`None` while the window has not changed).
pub open spec fn decided_type(start: Bounds, current: Bounds) -> Option<WindowDragType> {
    if current == start {
        None
    } else if current.size != start.size {
        Some(WindowDragType::Resize(spec_resize_direction(start, current)))
    } else {
        Some(WindowDragType::Move)
    }
}

impl WindowDragTracker {
    pub fn new() -> (t: WindowDragTracker)
        ensures
            !t.left_mouse_down,
            t.current_drag is None,
    {
        WindowDragTracker { left_mouse_down: false, current_drag: None }
    }

    /// A mouse move still has to decide the kind of the current drag.
    pub open spec fn deciding(self, event: WMEvent) -> bool {
        &&& event matches WMEvent::MouseMoved(_)
        &&& self.current_drag matches Some(d)
        &&& d.drag_type is None
    }

    /// The arithmetic of `handle_event` stays in the `i32` range.
    pub open spec fn event_fits(self, event: WMEvent, window_bounds: Option<Bounds>) -> bool {
        self.deciding(event) ==> {
            let pos = event->MouseMoved_0;
            let d = self.current_drag->Some_0;
            &&& i32::MIN < pos.x - d.start_position.x <= i32::MAX
            &&& i32::MIN < pos.y - d.start_position.y <= i32::MAX
            &&& past_threshold(d.start_position, pos) ==> window_bounds is Some
            &&& past_threshold(d.start_position, pos) && window_bounds->Some_0.size != d.start_bounds.size ==> {
                &&& edges_fit(d.start_bounds)
                &&& edges_fit(window_bounds->Some_0)
            }
        }
    }

    /// The state after `event` and what is reported for it. `window_bounds` is the
    /// current bounds of the window concerned (the window named by a transform
    /// start, otherwise the dragged window), `None` when it is not managed;
    /// `mouse` is the pointer position, `None` when it cannot be read.
    pub open spec fn spec_step(
        self,
        event: WMEvent,
        window_bounds: Option<Bounds>,
        mouse: Option<Position>,
    ) -> (WindowDragTracker, Option<WindowDragEvent>) {
        match event {
            WMEvent::WindowTransformStarted(id) => {
                if !self.left_mouse_down || self.current_drag is Some || window_bounds is None
                    || mouse is None {
                    (self, None)
                } else {
                    (
                        WindowDragTracker {
                            left_mouse_down: self.left_mouse_down,
                            current_drag: Some(
                                DragContext {
                                    window: id,
                                    drag_type: None,
                                    start_position: mouse->Some_0,
                                    start_bounds: window_bounds->Some_0,
                                },
                            ),
                        },
                        None,
                    )
                }
            },
            WMEvent::MouseDown(_, MouseButton::Left) => (
                WindowDragTracker { left_mouse_down: true, current_drag: self.current_drag },
                None,
            ),
            WMEvent::MouseUp(pos, MouseButton::Left) => (
                WindowDragTracker { left_mouse_down: false, current_drag: None },
                match self.current_drag {
                    Some(d) => match d.drag_type {
                        Some(t) => Some(WindowDragEvent::End(d.window, pos, t)),
                        None => None,
                    },
                    None => None,
                },
            ),
            WMEvent::MouseMoved(pos) => match self.current_drag {
                None => (self, None),
                Some(d) => {
                    let t = if d.drag_type is None && past_threshold(d.start_position, pos) {
                        decided_type(d.start_bounds, window_bounds->Some_0)
                    } else {
                        d.drag_type
                    };
                    (
                        WindowDragTracker {
                            left_mouse_down: self.left_mouse_down,
                            current_drag: Some(DragContext { drag_type: t, ..d }),
                        },
                        match t {
                            Some(t) => Some(WindowDragEvent::Drag(d.window, pos, t)),
                            None => None,
                        },
                    )
                },
            },
            _ => (self, None),
        }
    }

    /// Whether `handle_event` can take `event` without leaving the `i32` range.
    pub fn fits(&self, event: &WMEvent, window_bounds: Option<Bounds>) -> (b: bool)
        ensures
            b == self.event_fits(*event, window_bounds),
    {
        let pos = match event {
            WMEvent::MouseMoved(p) => *p,
            _ => return true,
        };
        let d = match self.current_drag {
            Some(d) => d,
            None => return true,
        };
        if d.drag_type.is_some() {
            return true;
        }
        let dx: i64 = pos.x as i64 - d.start_position.x as i64;
        let dy: i64 = pos.y as i64 - d.start_position.y as i64;
        if !(-2147483648 < dx && dx <= 2147483647 && -2147483648 < dy && dy <= 2147483647) {
            return false;
        }
        let adx = if dx < 0 { -dx } else { dx };
        let ady = if dy < 0 { -dy } else { dy };
        if !(adx > DRAG_TYPE_DETERMINATION_THRESHOLD as i64 || ady > DRAG_TYPE_DETERMINATION_THRESHOLD as i64) {
            return true;
        }
        match window_bounds {
            None => false,
            Some(b) => b.size == d.start_bounds.size || (edges_in_range(&d.start_bounds) && edges_in_range(&b)),
        }
    }

    /// Feeds one event to the tracker and returns the drag event it completes, if any.
    pub fn handle_event(
        &mut self,
        event: &WMEvent,
        window_bounds: Option<Bounds>,
        mouse: Option<Position>,
    ) -> (r: Option<WindowDragEvent>)
        requires
            old(self).event_fits(*event, window_bounds),
        ensures
            (*final(self), r) == old(self).spec_step(*event, window_bounds, mouse),
    {
        match event {
            WMEvent::WindowTransformStarted(id) => {
                if !self.left_mouse_down || self.current_drag.is_some() {
                    return None;
                }
                let b = match window_bounds {
                    Some(b) => b,
                    None => return None,
                };
                let p = match mouse {
                    Some(p) => p,
                    None => return None,
                };
                self.current_drag = Some(
                    DragContext { window: *id, drag_type: None, start_position: p, start_bounds: b },
                );
                None
            },
            WMEvent::MouseDown(_, MouseButton::Left) => {
                self.left_mouse_down = true;
                None
            },
            WMEvent::MouseUp(pos, MouseButton::Left) => {
                self.left_mouse_down = false;
                match self.current_drag {
                    None => None,
                    Some(d) => {
                        self.current_drag = None;
                        match d.drag_type {
                            Some(t) => Some(WindowDragEvent::End(d.window, *pos, t)),
                            None => None,
                        }
                    },
                }
            },
            WMEvent::MouseMoved(pos) => {
                let mut d = match self.current_drag {
                    None => return None,
                    Some(d) => d,
                };
                if d.drag_type.is_none() {
                    let delta_x = abs_i32(pos.x - d.start_position.x);
                    let delta_y = abs_i32(pos.y - d.start_position.y);
                    if delta_x > DRAG_TYPE_DETERMINATION_THRESHOLD || delta_y
                        > DRAG_TYPE_DETERMINATION_THRESHOLD {
                        let current = window_bounds.unwrap();
                        if current == d.start_bounds {
                            return None;
                        }
                        if current.size != d.start_bounds.size {
                            d.drag_type = Some(
                                WindowDragType::Resize(
                                    Self::calculate_resize_direction(&d.start_bounds, &current),
                                ),
                            );
                        } else {
                            d.drag_type = Some(WindowDragType::Move);
                        }
                        self.current_drag = Some(d);
                    }
                }
                match d.drag_type {
                    Some(t) => Some(WindowDragEvent::Drag(d.window, *pos, t)),
                    None => None,
                }
            },
            _ => None,
        }
    }

    /// Infers the edge or corner being dragged from the edges that moved.
    /// When the change matches no single edge or corner, the answer is `Right`.
    pub fn calculate_resize_direction(old: &Bounds, new: &Bounds) -> (d: ResizeDirection)
        requires
            edges_fit(*old),
            edges_fit(*new),
        ensures
            d == spec_resize_direction(*old, *new),
    {
        let left_changed = new.position.x != old.position.x;
        let right_changed = (new.position.x + new.size.width as i32) != (old.position.x
            + old.size.width as i32);
        let top_changed = new.position.y != old.position.y;
        let bottom_changed = (new.position.y + new.size.height as i32) != (old.position.y
            + old.size.height as i32);

        match (left_changed, right_changed, top_changed, bottom_changed) {
            (true, false, false, false) => ResizeDirection::Left,
            (false, true, false, false) => ResizeDirection::Right,
            (false, false, true, false) => ResizeDirection::Top,
            (false, false, false, true) => ResizeDirection::Bottom,
            (true, false, true, false) => ResizeDirection::TopLeft,
            (false, true, true, false) => ResizeDirection::TopRight,
            (true, false, false, true) => ResizeDirection::BottomLeft,
            (false, true, false, true) => ResizeDirection::BottomRight,
            _ => ResizeDirection::Right,
        }
    }
}


/// Releasing the left button ends any native drag: afterwards the button is
/// up and no drag is in progress, and a drag whose kind was decided is
/// reported as ended for its window.
pub proof fn lemma_release_ends_drag(t: WindowDragTracker, pos: Position, window_bounds: Option<Bounds>, mouse: Option<Position>)
    ensures
        ({
            let (t2, e) = t.spec_step(WMEvent::MouseUp(pos, MouseButton::Left), window_bounds, mouse);
            &&& !t2.left_mouse_down
            &&& t2.current_drag is None
            &&& match t.current_drag {
                Some(d) => match d.drag_type {
                    Some(k) => e == Some(WindowDragEvent::End(d.window, pos, k)),
                    None => e is None,
                },
                None => e is None,
            }
        }),
{
}

/// Once the kind of a drag is decided it stays the same for as long as the
/// drag lasts, and the drag stays with its window.
pub proof fn lemma_drag_kind_stable(t: WindowDragTracker, event: WMEvent, window_bounds: Option<Bounds>, mouse: Option<Position>)
    requires
        t.current_drag matches Some(d) && d.drag_type is Some,
    ensures
        ({
            let (t2, _) = t.spec_step(event, window_bounds, mouse);
            t2.current_drag matches Some(d2) ==> d2.drag_type == t.current_drag->Some_0.drag_type
                && d2.window == t.current_drag->Some_0.window
        }),
{
}

/// Every drag or end event names the window of the drag in progress, with
/// its decided kind.
pub proof fn lemma_events_follow_the_drag(t: WindowDragTracker, event: WMEvent, window_bounds: Option<Bounds>, mouse: Option<Position>)
    ensures
        ({
            let (t2, e) = t.spec_step(event, window_bounds, mouse);
            match e {
                Some(WindowDragEvent::Drag(w, _, k)) => t.current_drag matches Some(d) && d.window == w
                    && t2.current_drag == Some(DragContext { drag_type: Some(k), ..d }),
                Some(WindowDragEvent::End(w, _, k)) => t.current_drag matches Some(d) && d.window == w
                    && d.drag_type == Some(k),
                Some(WindowDragEvent::Start(..)) => false,
                None => true,
            }
        }),
{
}


/// A mouse move during a drag: a drag whose kind is known reports a drag of
/// that kind; an undecided drag stays undecided and reports nothing while the
/// mouse is within 5 pixels of the start on both axes or the window still has
/// its start bounds, and otherwise becomes a resize (from the edges that moved)
/// when the size changed and a move when it did not, and reports a drag of
/// that kind. Without a drag, a move reports nothing.
pub proof fn lemma_move_decides_kind(t: WindowDragTracker, pos: Position, current: Bounds, mouse: Option<Position>)
    ensures
        ({
            let (t2, e) = t.spec_step(WMEvent::MouseMoved(pos), Some(current), mouse);
            match t.current_drag {
                None => e is None && t2 == t,
                Some(d) => match d.drag_type {
                    Some(k) => e == Some(WindowDragEvent::Drag(d.window, pos, k)) && t2 == t,
                    None => if (abs_int(pos.x - d.start_position.x) <= 5 && abs_int(pos.y - d.start_position.y) <= 5)
                        || current == d.start_bounds {
                        e is None && t2 == t
                    } else {
                        let k = if current.size != d.start_bounds.size {
                            WindowDragType::Resize(spec_resize_direction(d.start_bounds, current))
                        } else {
                            WindowDragType::Move
                        };
                        &&& e == Some(WindowDragEvent::Drag(d.window, pos, k))
                        &&& t2 == WindowDragTracker {
                            left_mouse_down: t.left_mouse_down,
                            current_drag: Some(DragContext { drag_type: Some(k), ..d }),
                        }
                    },
                },
            }
        }),
{
}

} // verus!
