use vstd::prelude::*;
use crate::event_handlers::mod_transform_tracker::{
    ModTransformDragEvent, ModTransformOutcome, ModTransformTracker, ModTransformType, WindowTarget,
};
use crate::geometry::{in_i32, Bounds, Position, Size, WindowId};
use crate::layouts::ResizeDirection;
use crate::platform::{InputState, WMEvent};

verus! {

/// The mouse cursor shapes that the window manager uses.
#[derive(Debug, Clone, Copy, PartialEq, Eq, Structural)]
pub enum CursorType {
    Normal,
    Move,
    ResizeNorth,
    ResizeEast,
    ResizeNorthWest,
    ResizeNorthEast,
}

pub open spec fn spec_cursor_for(d: ResizeDirection) -> CursorType {
    match d {
        ResizeDirection::Top | ResizeDirection::Bottom => CursorType::ResizeNorth,
        ResizeDirection::Left | ResizeDirection::Right => CursorType::ResizeEast,
        ResizeDirection::TopLeft | ResizeDirection::BottomRight => CursorType::ResizeNorthWest,
        ResizeDirection::TopRight | ResizeDirection::BottomLeft => CursorType::ResizeNorthEast,
    }
}

/// The cursor shown while resizing from the given edge or corner.
pub fn cursor_for_resize_mode(direction: ResizeDirection) -> (c: CursorType)
    ensures
        c == spec_cursor_for(direction),
{
    match direction {
        ResizeDirection::Top | ResizeDirection::Bottom => CursorType::ResizeNorth,
        ResizeDirection::Left | ResizeDirection::Right => CursorType::ResizeEast,
        ResizeDirection::TopLeft | ResizeDirection::BottomRight => CursorType::ResizeNorthWest,
        ResizeDirection::TopRight | ResizeDirection::BottomLeft => CursorType::ResizeNorthEast,
    }
}

/// `v` raised to at least 1, as a size.
pub open spec fn at_least_one(v: int) -> u32 {
    if v < 1 {
        1
    } else {
        v as u32
    }
}

/// The bounds after dragging the given edges of `b` by (`dx`, `dy`): the dragged
/// edges move, the opposite ones stay, and no side drops below one pixel.
pub open spec fn spec_resize_bounds(b: Bounds, dx: int, dy: int, d: ResizeDirection) -> Bounds {
    let w = (b.size.width as i32) as int;
    let h = (b.size.height as i32) as int;
    let x = if d.spec_has_left() { b.position.x + dx } else { b.position.x as int };
    let y = if d.spec_has_top() { b.position.y + dy } else { b.position.y as int };
    let width = if d.spec_has_left() {
        at_least_one(w - dx)
    } else if d.spec_has_right() {
        at_least_one(w + dx)
    } else {
        b.size.width
    };
    let height = if d.spec_has_top() {
        at_least_one(h - dy)
    } else if d.spec_has_bottom() {
        at_least_one(h + dy)
    } else {
        b.size.height
    };
    Bounds { position: Position { x: x as i32, y: y as i32 }, size: Size { width, height } }
}

/// The arithmetic of `calculate_resize_bounds` stays in the `i32` range.
pub open spec fn resize_fits(b: Bounds, sp: Position, cp: Position, d: ResizeDirection) -> bool {
    let dx = cp.x - sp.x;
    let dy = cp.y - sp.y;
    let w = (b.size.width as i32) as int;
    let h = (b.size.height as i32) as int;
    &&& in_i32(dx) && in_i32(dy)
    &&& d.spec_has_left() ==> in_i32(b.position.x + dx) && in_i32(w - dx)
    &&& d.spec_has_right() ==> in_i32(w + dx)
    &&& d.spec_has_top() ==> in_i32(b.position.y + dy) && in_i32(h - dy)
    &&& d.spec_has_bottom() ==> in_i32(h + dy)
}

fn clamp_size(v: i32) -> (r: u32)
    ensures
        r == at_least_one(v as int),
{
    if v < 1 {
        1
    } else {
        v as u32
    }
}

/// The bounds of a window being resized from `direction` while the mouse moved
/// from `start_pos` to `current_pos`.
pub fn calculate_resize_bounds(
    start_bounds: &Bounds,
    start_pos: &Position,
    current_pos: &Position,
    direction: ResizeDirection,
) -> (r: Bounds)
    requires
        resize_fits(*start_bounds, *start_pos, *current_pos, direction),
    ensures
        r == spec_resize_bounds(*start_bounds, current_pos.x - start_pos.x, current_pos.y - start_pos.y, direction),
{
    let mut new_bounds = *start_bounds;
    let dx = current_pos.x - start_pos.x;
    let dy = current_pos.y - start_pos.y;
    if direction.has_left() {
        new_bounds.position.x = new_bounds.position.x + dx;
        new_bounds.size.width = clamp_size(start_bounds.size.width as i32 - dx);
    }
    if direction.has_right() {
        new_bounds.size.width = clamp_size(start_bounds.size.width as i32 + dx);
    }
    if direction.has_top() {
        new_bounds.position.y = new_bounds.position.y + dy;
        new_bounds.size.height = clamp_size(start_bounds.size.height as i32 - dy);
    }
    if direction.has_bottom() {
        new_bounds.size.height = clamp_size(start_bounds.size.height as i32 + dy);
    }
    new_bounds
}

/// The bounds after a symmetric resize: on each dragged axis the window grows or
/// shrinks by the same amount on both opposite sides, keeping its centre, and no
/// side drops below one pixel.
pub open spec fn spec_symmetric_bounds(b: Bounds, dx: int, dy: int, d: ResizeDirection) -> Bounds {
    let w = (b.size.width as i32) as int;
    let h = (b.size.height as i32) as int;
    let x = if d.spec_has_left() {
        b.position.x + dx
    } else if d.spec_has_right() {
        b.position.x - dx
    } else {
        b.position.x as int
    };
    let width = if d.spec_has_left() {
        at_least_one(w - 2 * dx)
    } else if d.spec_has_right() {
        at_least_one(w + 2 * dx)
    } else {
        b.size.width
    };
    let y = if d.spec_has_top() {
        b.position.y + dy
    } else if d.spec_has_bottom() {
        b.position.y - dy
    } else {
        b.position.y as int
    };
    let height = if d.spec_has_top() {
        at_least_one(h - 2 * dy)
    } else if d.spec_has_bottom() {
        at_least_one(h + 2 * dy)
    } else {
        b.size.height
    };
    Bounds { position: Position { x: x as i32, y: y as i32 }, size: Size { width, height } }
}

/// The arithmetic of `calculate_resize_bounds_symmetric` stays in the `i32` range.
pub open spec fn symmetric_fits(b: Bounds, sp: Position, cp: Position, d: ResizeDirection) -> bool {
    let dx = cp.x - sp.x;
    let dy = cp.y - sp.y;
    let w = (b.size.width as i32) as int;
    let h = (b.size.height as i32) as int;
    &&& in_i32(dx) && in_i32(dy)
    &&& in_i32(2 * dx) && in_i32(2 * dy)
    &&& in_i32(b.position.x + dx) && in_i32(b.position.x - dx)
    &&& in_i32(b.position.y + dy) && in_i32(b.position.y - dy)
    &&& in_i32(w - 2 * dx) && in_i32(w + 2 * dx)
    &&& in_i32(h - 2 * dy) && in_i32(h + 2 * dy)
}

/// The bounds of a window resized symmetrically from `direction` while the mouse
/// moved from `start_pos` to `current_pos`.
pub fn calculate_resize_bounds_symmetric(
    start_bounds: &Bounds,
    start_pos: &Position,
    current_pos: &Position,
    direction: ResizeDirection,
) -> (r: Bounds)
    requires
        symmetric_fits(*start_bounds, *start_pos, *current_pos, direction),
    ensures
        r == spec_symmetric_bounds(*start_bounds, current_pos.x - start_pos.x, current_pos.y - start_pos.y, direction),
{
    let mut new_bounds = *start_bounds;
    let dx = current_pos.x - start_pos.x;
    let dy = current_pos.y - start_pos.y;
    let w = start_bounds.size.width as i32;
    let h = start_bounds.size.height as i32;
    if direction == ResizeDirection::Left {
        new_bounds.position.x = new_bounds.position.x + dx;
        new_bounds.size.width = clamp_size(w - 2 * dx);
    } else if direction == ResizeDirection::Right {
        new_bounds.position.x = new_bounds.position.x - dx;
        new_bounds.size.width = clamp_size(w + 2 * dx);
    } else if direction == ResizeDirection::Top {
        new_bounds.position.y = new_bounds.position.y + dy;
        new_bounds.size.height = clamp_size(h - 2 * dy);
    } else if direction == ResizeDirection::Bottom {
        new_bounds.position.y = new_bounds.position.y - dy;
        new_bounds.size.height = clamp_size(h + 2 * dy);
    } else {
        let (sign_x, sign_y): (i32, i32) = match direction {
            ResizeDirection::TopLeft => (-1, -1),
            ResizeDirection::TopRight => (1, -1),
            ResizeDirection::BottomLeft => (-1, 1),
            ResizeDirection::BottomRight => (1, 1),
            _ => (0, 0),
        };
        if sign_x != 0 {
            // the horizontal movement, signed so that positive means growing
            let grow_x: i32 = if sign_x < 0 { -dx } else { dx };
            new_bounds.position.x = new_bounds.position.x - grow_x;
            new_bounds.size.width = clamp_size(w + 2 * grow_x);
        }
        if sign_y != 0 {
            let grow_y: i32 = if sign_y < 0 { -dy } else { dy };
            new_bounds.position.y = new_bounds.position.y - grow_y;
            new_bounds.size.height = clamp_size(h + 2 * grow_y);
        }
    }
    new_bounds
}

} // verus!

verus! {

/// What the window manager does for a modifier drag, in order.
#[derive(Debug, Clone, Copy, PartialEq, Eq, Structural)]
pub enum HandlerAction {
    SetCursor(CursorType),
    ResetCursor,
    /// Show where the window would tile if dropped at the position.
    UpdatePreview(WindowId, Position),
    HidePreview,
    /// Move the window's preview outline.
    SetPreviewBounds(WindowId, Bounds),
    /// Take the window out of its tiled layout, if it is tiled.
    FloatIfTiled(WindowId),
    SetBounds(WindowId, Bounds),
    Flush(WindowId),
    UpdateFloating(WindowId),
    UpdateFloatingIfFloating(WindowId),
    /// Ask the layout to resize the window to the bounds.
    ResizeWindow(WindowId, Bounds),
    /// Tile the window where it was dropped.
    TileOnDrop(WindowId, Position),
    /// Put a floating window back where it was.
    RestoreBoundsIfFloating(WindowId),
    CancelPreview(WindowId),
}

/// A window that a drag event names is not known to the window manager.
#[derive(Debug, Clone, Copy, PartialEq, Eq, Structural)]
pub enum HandlerError {
    WindowNotFound(WindowId),
}

/// Moves and resizes windows by modifier drags. It remembers where the drag
/// started: the mouse position, the window's bounds then, and the edge or
/// corner being resized, if any. The drags themselves come from a
/// `ModTransformTracker` that the caller feeds.
#[derive(Debug, Clone, Copy, PartialEq, Eq, Structural)]
pub struct ModTransformHandler {
    pub resize_direction: Option<ResizeDirection>,
    pub drag_start_position: Option<Position>,
    pub drag_start_bounds: Option<Bounds>,
}

/// `b` moved by (`dx`, `dy`).
pub open spec fn translated(b: Bounds, dx: int, dy: int) -> Bounds {
    Bounds {
        position: Position { x: (b.position.x + dx) as i32, y: (b.position.y + dy) as i32 },
        size: b.size,
    }
}

/// The cursor shown while dragging in the given way.
pub open spec fn spec_cursor_for_type(t: ModTransformType) -> CursorType {
    match t {
        ModTransformType::Resize(d) => spec_cursor_for(d),
        ModTransformType::ResizeSymmetric(d) => spec_cursor_for(d),
        _ => CursorType::Move,
    }
}

/// The session after a drag of type `t` started at `pos` on a window with bounds `b`.
pub open spec fn spec_started(s: ModTransformHandler, pos: Position, t: ModTransformType, b: Bounds) -> ModTransformHandler {
    ModTransformHandler {
        resize_direction: match t {
            ModTransformType::Resize(d) => Some(d),
            ModTransformType::ResizeSymmetric(d) => Some(d),
            _ => s.resize_direction,
        },
        drag_start_position: Some(pos),
        drag_start_bounds: Some(b),
    }
}

/// The arithmetic of a drag step from the session's start to `pos` stays in the `i32` range.
pub open spec fn spec_drag_fits(s: ModTransformHandler, pos: Position, t: ModTransformType) -> bool {
    match (s.drag_start_position, s.drag_start_bounds) {
        (Some(sp), Some(b)) => {
            let dx = pos.x - sp.x;
            let dy = pos.y - sp.y;
            match t {
                ModTransformType::Resize(d) => resize_fits(b, sp, pos, d),
                ModTransformType::ResizeSymmetric(d) => symmetric_fits(b, sp, pos, d),
                ModTransformType::Shift | ModTransformType::Toggle => true,
                _ => in_i32(dx) && in_i32(dy) && in_i32(b.position.x + dx) && in_i32(b.position.y + dy),
            }
        },
        _ => true,
    }
}

/// What a drag step does once the window is found: the start position `sp` and
/// bounds `b` are those of the session.
pub open spec fn spec_drag_actions(id: WindowId, pos: Position, t: ModTransformType, sp: Position, b: Bounds) -> Seq<
    HandlerAction,
> {
    let dx = pos.x - sp.x;
    let dy = pos.y - sp.y;
    let moved = translated(b, dx, dy);
    match t {
        ModTransformType::Tile => seq![
            HandlerAction::UpdatePreview(id, pos),
            HandlerAction::SetPreviewBounds(id, moved),
        ],
        ModTransformType::Float => seq![
            HandlerAction::HidePreview,
            HandlerAction::FloatIfTiled(id),
            HandlerAction::SetBounds(id, moved),
            HandlerAction::Flush(id),
            HandlerAction::UpdateFloating(id),
        ],
        ModTransformType::Slide => seq![
            HandlerAction::HidePreview,
            HandlerAction::ResizeWindow(id, moved),
            HandlerAction::UpdateFloatingIfFloating(id),
        ],
        ModTransformType::Resize(d) => seq![
            HandlerAction::HidePreview,
            HandlerAction::ResizeWindow(id, spec_resize_bounds(b, dx, dy, d)),
        ],
        ModTransformType::ResizeSymmetric(d) => seq![
            HandlerAction::HidePreview,
            HandlerAction::ResizeWindow(id, spec_symmetric_bounds(b, dx, dy, d)),
        ],
        _ => seq![HandlerAction::HidePreview],
    }
}

/// The session after a drag of type `t` ended or was cancelled.
pub open spec fn spec_finalized(s: ModTransformHandler, t: ModTransformType) -> ModTransformHandler {
    ModTransformHandler {
        resize_direction: match t {
            ModTransformType::Resize(_) | ModTransformType::ResizeSymmetric(_) => None,
            _ => s.resize_direction,
        },
        drag_start_position: None,
        drag_start_bounds: None,
    }
}

/// The result of one drag event, given the bounds of the window it names when
/// the window manager knows it: the new session and the actions, or the error
/// (the actions listed before an error are still carried out).
pub open spec fn spec_handle_drag_event(s: ModTransformHandler, e: ModTransformDragEvent, window: Option<Bounds>) -> (
    ModTransformHandler,
    Seq<HandlerAction>,
    Option<HandlerError>,
) {
    match e {
        ModTransformDragEvent::Start(id, pos, t) => match window {
            None => (s, Seq::empty(), Some(HandlerError::WindowNotFound(id))),
            Some(b) => (spec_started(s, pos, t, b), seq![HandlerAction::SetCursor(spec_cursor_for_type(t))], None),
        },
        ModTransformDragEvent::Drag(id, pos, t) => match (s.drag_start_position, s.drag_start_bounds) {
            (Some(sp), Some(b)) => match window {
                None => (s, Seq::empty(), Some(HandlerError::WindowNotFound(id))),
                Some(_) => (s, spec_drag_actions(id, pos, t, sp, b), None),
            },
            _ => (s, Seq::empty(), None),
        },
        ModTransformDragEvent::End(id, pos, t) => (
            spec_finalized(s, t),
            (if t == ModTransformType::Tile { seq![HandlerAction::TileOnDrop(id, pos)] } else { Seq::empty() })
                + seq![HandlerAction::HidePreview, HandlerAction::ResetCursor],
            None,
        ),
        ModTransformDragEvent::Cancel(id, t) => if t == ModTransformType::Tile {
            match window {
                None => (s, Seq::empty(), Some(HandlerError::WindowNotFound(id))),
                Some(_) => (
                    spec_finalized(s, t),
                    seq![
                        HandlerAction::RestoreBoundsIfFloating(id),
                        HandlerAction::CancelPreview(id),
                        HandlerAction::HidePreview,
                        HandlerAction::ResetCursor,
                    ],
                    None,
                ),
            }
        } else {
            (spec_finalized(s, t), seq![HandlerAction::HidePreview, HandlerAction::ResetCursor], None)
        },
    }
}

/// `e` needs no arithmetic outside the `i32` range in session `s`.
pub open spec fn spec_event_fits(s: ModTransformHandler, e: ModTransformDragEvent) -> bool {
    match e {
        ModTransformDragEvent::Drag(_, pos, t) => spec_drag_fits(s, pos, t),
        _ => true,
    }
}

fn translate(b: &Bounds, dx: i32, dy: i32) -> (r: Bounds)
    requires
        in_i32(b.position.x + dx),
        in_i32(b.position.y + dy),
    ensures
        r == translated(*b, dx as int, dy as int),
{
    let mut r = *b;
    r.position.x = b.position.x + dx;
    r.position.y = b.position.y + dy;
    r
}

impl ModTransformHandler {
    /// No drag in progress.
    pub fn new() -> (s: ModTransformHandler)
        ensures
            s.resize_direction is None && s.drag_start_position is None && s.drag_start_bounds is None,
    {
        ModTransformHandler { resize_direction: None, drag_start_position: None, drag_start_bounds: None }
    }

    /// Whether `e` can be handled without leaving the `i32` range.
    pub fn event_fits(&self, e: &ModTransformDragEvent) -> (b: bool)
        ensures
            b == spec_event_fits(*self, *e),
    {
        match *e {
            ModTransformDragEvent::Drag(_, pos, t) => match (self.drag_start_position, self.drag_start_bounds) {
                (Some(sp), Some(b)) => {
                    let dx: i64 = pos.x as i64 - sp.x as i64;
                    let dy: i64 = pos.y as i64 - sp.y as i64;
                    let w: i64 = (b.size.width as i32) as i64;
                    let h: i64 = (b.size.height as i32) as i64;
                    let x: i64 = b.position.x as i64;
                    let y: i64 = b.position.y as i64;
                    let lo: i64 = -2147483648;
                    let hi: i64 = 2147483647;
                    let fits_d = lo <= dx && dx <= hi && lo <= dy && dy <= hi;
                    if !fits_d {
                        return match t {
                            ModTransformType::Shift | ModTransformType::Toggle => true,
                            _ => false,
                        };
                    }
                    match t {
                        ModTransformType::Resize(d) => {
                            (!d.has_left() || (lo <= x + dx && x + dx <= hi && lo <= w - dx && w - dx <= hi))
                                && (!d.has_right() || (lo <= w + dx && w + dx <= hi))
                                && (!d.has_top() || (lo <= y + dy && y + dy <= hi && lo <= h - dy && h - dy <= hi))
                                && (!d.has_bottom() || (lo <= h + dy && h + dy <= hi))
                        },
                        ModTransformType::ResizeSymmetric(_) => {
                            lo <= 2 * dx && 2 * dx <= hi && lo <= 2 * dy && 2 * dy <= hi
                                && lo <= x + dx && x + dx <= hi && lo <= x - dx && x - dx <= hi
                                && lo <= y + dy && y + dy <= hi && lo <= y - dy && y - dy <= hi
                                && lo <= w - 2 * dx && w - 2 * dx <= hi && lo <= w + 2 * dx && w + 2 * dx <= hi
                                && lo <= h - 2 * dy && h - 2 * dy <= hi && lo <= h + 2 * dy && h + 2 * dy <= hi
                        },
                        ModTransformType::Shift | ModTransformType::Toggle => true,
                        _ => lo <= x + dx && x + dx <= hi && lo <= y + dy && y + dy <= hi,
                    }
                },
                _ => true,
            },
            _ => true,
        }
    }

    /// Handles one drag event of the modifier tracker. `window` holds the bounds
    /// of the window the event names, when the window manager knows it.
    pub fn handle_drag_event(&mut self, e: &ModTransformDragEvent, window: Option<Bounds>) -> (r: (
        Vec<HandlerAction>,
        Option<HandlerError>,
    ))
        requires
            spec_event_fits(*old(self), *e),
        ensures
            (*final(self), r.0@, r.1) == spec_handle_drag_event(*old(self), *e, window),
    {
        match *e {
            ModTransformDragEvent::Start(id, pos, t) => self.start(id, pos, t, window),
            ModTransformDragEvent::Drag(id, pos, t) => self.drag(id, pos, t, window),
            ModTransformDragEvent::End(id, pos, t) => (self.drop(id, pos, t), None),
            ModTransformDragEvent::Cancel(id, t) => self.cancel(id, t, window),
        }
    }

    /// A drag starts on the window with bounds `window`: remembers where, and
    /// shows the cursor for the kind of drag.
    fn start(&mut self, id: WindowId, pos: Position, t: ModTransformType, window: Option<Bounds>) -> (r: (
        Vec<HandlerAction>,
        Option<HandlerError>,
    ))
        ensures
            (*final(self), r.0@, r.1) == spec_handle_drag_event(*old(self), ModTransformDragEvent::Start(id, pos, t), window),
    {
        match window {
            None => (Vec::new(), Some(HandlerError::WindowNotFound(id))),
            Some(b) => {
                self.drag_start_position = Some(pos);
                self.drag_start_bounds = Some(b);
                let cursor = match t {
                    ModTransformType::Resize(d) => {
                        self.resize_direction = Some(d);
                        cursor_for_resize_mode(d)
                    },
                    ModTransformType::ResizeSymmetric(d) => {
                        self.resize_direction = Some(d);
                        cursor_for_resize_mode(d)
                    },
                    _ => CursorType::Move,
                };
                (vec![HandlerAction::SetCursor(cursor)], None)
            },
        }
    }

    /// One step of a drag: what happens to the window and the preview.
    fn drag(&mut self, id: WindowId, pos: Position, t: ModTransformType, window: Option<Bounds>) -> (r: (
        Vec<HandlerAction>,
        Option<HandlerError>,
    ))
        requires
            spec_drag_fits(*old(self), pos, t),
        ensures
            (*final(self), r.0@, r.1) == spec_handle_drag_event(*old(self), ModTransformDragEvent::Drag(id, pos, t), window),
    {
        let (sp, b) = match (self.drag_start_position, self.drag_start_bounds) {
            (Some(sp), Some(b)) => (sp, b),
            _ => return (Vec::new(), None),
        };
        if window.is_none() {
            return (Vec::new(), Some(HandlerError::WindowNotFound(id)));
        }
        (self.drag_actions(id, pos, t, sp, b), None)
    }

    /// The drag ends: a tiling drag drops the window into the layout.
    fn drop(&mut self, id: WindowId, pos: Position, t: ModTransformType) -> (r: Vec<HandlerAction>)
        ensures
            (*final(self), r@, None::<HandlerError>) == spec_handle_drag_event(*old(self), ModTransformDragEvent::End(id, pos, t), None),
    {
        let mut actions: Vec<HandlerAction> = Vec::new();
        if t == ModTransformType::Tile {
            actions.push(HandlerAction::TileOnDrop(id, pos));
        }
        self.finalize(t, &mut actions);
        actions
    }

    /// The drag is cancelled: a tiling drag puts the window back.
    fn cancel(&mut self, id: WindowId, t: ModTransformType, window: Option<Bounds>) -> (r: (
        Vec<HandlerAction>,
        Option<HandlerError>,
    ))
        ensures
            (*final(self), r.0@, r.1) == spec_handle_drag_event(*old(self), ModTransformDragEvent::Cancel(id, t), window),
    {
        let mut actions: Vec<HandlerAction> = Vec::new();
        if t == ModTransformType::Tile {
            if window.is_none() {
                return (actions, Some(HandlerError::WindowNotFound(id)));
            }
            actions.push(HandlerAction::RestoreBoundsIfFloating(id));
            actions.push(HandlerAction::CancelPreview(id));
        }
        self.finalize(t, &mut actions);
        (actions, None)
    }

    fn drag_actions(&self, id: WindowId, pos: Position, t: ModTransformType, sp: Position, b: Bounds) -> (r: Vec<
        HandlerAction,
    >)
        requires
            self.drag_start_position == Some(sp),
            self.drag_start_bounds == Some(b),
            spec_drag_fits(*self, pos, t),
        ensures
            r@ == spec_drag_actions(id, pos, t, sp, b),
    {
        match t {
            ModTransformType::Tile => {
                let moved = translate(&b, pos.x - sp.x, pos.y - sp.y);
                vec![HandlerAction::UpdatePreview(id, pos), HandlerAction::SetPreviewBounds(id, moved)]
            },
            ModTransformType::Float => {
                let moved = translate(&b, pos.x - sp.x, pos.y - sp.y);
                vec![
                    HandlerAction::HidePreview,
                    HandlerAction::FloatIfTiled(id),
                    HandlerAction::SetBounds(id, moved),
                    HandlerAction::Flush(id),
                    HandlerAction::UpdateFloating(id),
                ]
            },
            ModTransformType::Slide => {
                let moved = translate(&b, pos.x - sp.x, pos.y - sp.y);
                vec![
                    HandlerAction::HidePreview,
                    HandlerAction::ResizeWindow(id, moved),
                    HandlerAction::UpdateFloatingIfFloating(id),
                ]
            },
            ModTransformType::Resize(d) => {
                let nb = calculate_resize_bounds(&b, &sp, &pos, d);
                vec![HandlerAction::HidePreview, HandlerAction::ResizeWindow(id, nb)]
            },
            ModTransformType::ResizeSymmetric(d) => {
                let nb = calculate_resize_bounds_symmetric(&b, &sp, &pos, d);
                vec![HandlerAction::HidePreview, HandlerAction::ResizeWindow(id, nb)]
            },
            _ => vec![HandlerAction::HidePreview],
        }
    }

    fn finalize(&mut self, t: ModTransformType, actions: &mut Vec<HandlerAction>)
        ensures
            *final(self) == spec_finalized(*old(self), t),
            final(actions)@ == old(actions)@ + seq![HandlerAction::HidePreview, HandlerAction::ResetCursor],
    {
        match t {
            ModTransformType::Resize(_) | ModTransformType::ResizeSymmetric(_) => {
                self.resize_direction = None;
            },
            _ => {},
        }
        actions.push(HandlerAction::HidePreview);
        self.drag_start_position = None;
        self.drag_start_bounds = None;
        actions.push(HandlerAction::ResetCursor);
    }
}


/// A resize never leaves a window with a side shorter than one pixel: a
/// dragged side is at least one pixel, any other side keeps its size.
pub proof fn lemma_resize_keeps_a_pixel(b: Bounds, start: Position, current: Position, d: ResizeDirection)
    requires
        resize_fits(b, start, current, d),
        symmetric_fits(b, start, current, d),
    ensures
        ({
            let dx = current.x - start.x;
            let dy = current.y - start.y;
            let r = spec_resize_bounds(b, dx, dy, d);
            let s = spec_symmetric_bounds(b, dx, dy, d);
            &&& (d.spec_has_left() || d.spec_has_right()) ==> r.size.width >= 1 && s.size.width >= 1
            &&& (d.spec_has_top() || d.spec_has_bottom()) ==> r.size.height >= 1 && s.size.height >= 1
            &&& !(d.spec_has_left() || d.spec_has_right()) ==> r.size.width == b.size.width && s.size.width
                == b.size.width
            &&& !(d.spec_has_top() || d.spec_has_bottom()) ==> r.size.height == b.size.height && s.size.height
                == b.size.height
        }),
{
}

/// A symmetric resize keeps the window's centre on every axis it changes,
/// as long as the new size is not held at one pixel: the left or top edge
/// moves by the drag, the size changes by twice the drag the other way.
pub proof fn lemma_symmetric_keeps_centre(b: Bounds, start: Position, current: Position, d: ResizeDirection)
    requires
        symmetric_fits(b, start, current, d),
        b.size.width <= i32::MAX,
        b.size.height <= i32::MAX,
    ensures
        ({
            let dx = current.x - start.x;
            let dy = current.y - start.y;
            let s = spec_symmetric_bounds(b, dx, dy, d);
            let w = b.size.width as int;
            let h = b.size.height as int;
            &&& d.spec_has_left() && w - 2 * dx >= 1 ==> s.position.x + s.size.width / 2 == b.position.x + w / 2
            &&& d.spec_has_right() && w + 2 * dx >= 1 ==> s.position.x + s.size.width / 2 == b.position.x + w / 2
            &&& d.spec_has_top() && h - 2 * dy >= 1 ==> s.position.y + s.size.height / 2 == b.position.y + h / 2
            &&& d.spec_has_bottom() && h + 2 * dy >= 1 ==> s.position.y + s.size.height / 2 == b.position.y + h
                / 2
        }),
{
    let dx = current.x - start.x;
    let dy = current.y - start.y;
    let w = b.size.width as int;
    let h = b.size.height as int;
    assert((b.size.width as i32) as int == w);
    assert((b.size.height as i32) as int == h);
    assert((w - 2 * dx) / 2 == w / 2 - dx);
    assert((w + 2 * dx) / 2 == w / 2 + dx);
    assert((h - 2 * dy) / 2 == h / 2 - dy);
    assert((h + 2 * dy) / 2 == h / 2 + dy);
}

/// Ending or cancelling a drag always leaves no drag in progress, whatever
/// the window manager knows of the window.
pub proof fn lemma_end_clears_session(s: ModTransformHandler, e: ModTransformDragEvent, window: Option<Bounds>)
    requires
        e is End || (e is Cancel && (e->Cancel_1 != ModTransformType::Tile || window is Some)),
    ensures
        ({
            let (s2, actions, err) = spec_handle_drag_event(s, e, window);
            &&& s2.drag_start_position is None
            &&& s2.drag_start_bounds is None
            &&& err is None
            &&& actions.len() >= 2
            &&& actions[actions.len() - 1] == HandlerAction::ResetCursor
        }),
{
}

/// A drag step never changes the session: only starts, ends and cancels do.
pub proof fn lemma_drag_keeps_session(s: ModTransformHandler, id: WindowId, pos: Position, t: ModTransformType, window: Option<Bounds>)
    ensures
        spec_handle_drag_event(s, ModTransformDragEvent::Drag(id, pos, t), window).0 == s,
{
}

} // verus!
