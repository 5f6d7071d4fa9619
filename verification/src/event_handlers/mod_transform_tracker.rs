use vstd::prelude::*;
use crate::config::config::ModTransformBindings;
use crate::event_handlers::mod_mouse_keybind_tracker::{
    InterceptionAction, KeybindEvent, KeybindStep, ModMouseKeybindTracker, TrackerFlags,
};
use crate::geometry::{div_trunc, Bounds, Position, WindowId};
use crate::layouts::ResizeDirection;
use crate::platform::{InputState, WMEvent};

verus! {

/// What a modifier drag does to the window under the mouse.
#[derive(Debug, Clone, Copy, PartialEq, Eq, Structural)]
pub enum ModTransformType {
    Tile,
    Float,
    Shift,
    Toggle,
    Slide,
    Resize(ResizeDirection),
    ResizeSymmetric(ResizeDirection),
}

/// A modifier drag as reported to its handler.
#[derive(Debug, Clone, Copy, PartialEq, Eq, Structural)]
pub enum ModTransformDragEvent {
    Start(WindowId, Position, ModTransformType),
    Drag(WindowId, Position, ModTransformType),
    End(WindowId, Position, ModTransformType),
    Cancel(WindowId, ModTransformType),
}

/// Sizes, derived from a window's bounds, that split it into regions: the middle
/// region spans `threshold_width` by `threshold_height` pixels around the centre
/// (30% of each side, truncated), and each corner region is `corner_width` by
/// `corner_height` (25% of each side, rounded).
#[derive(Debug, Clone, Copy, PartialEq, Eq, Structural)]
pub struct DragZones {
    pub threshold_width: i32,
    pub threshold_height: i32,
    pub corner_width: i32,
    pub corner_height: i32,
}

/// The window found under the mouse: its id, bounds and regions.
#[derive(Debug, Clone, Copy, PartialEq, Eq, Structural)]
pub struct WindowTarget {
    pub id: WindowId,
    pub bounds: Bounds,
    pub zones: DragZones,
}

/// `pos` lies in the middle region of `b`.
pub open spec fn spec_in_middle(b: Bounds, pos: Position, z: DragZones) -> bool {
    let cx = b.position.x + div_trunc((b.size.width as i32) as int, 2);
    let cy = b.position.y + div_trunc((b.size.height as i32) as int, 2);
    let hw = div_trunc(z.threshold_width as int, 2);
    let hh = div_trunc(z.threshold_height as int, 2);
    cx - hw <= pos.x <= cx + hw && cy - hh <= pos.y <= cy + hh
}

/// The corner region of `b` that holds `pos`, if any (checked top-left, top-right,
/// bottom-left, bottom-right).
pub open spec fn spec_corner(b: Bounds, pos: Position, cw: int, ch: int) -> Option<ResizeDirection> {
    let left = b.position.x as int;
    let right = b.position.x + (b.size.width as i32);
    let top = b.position.y as int;
    let bottom = b.position.y + (b.size.height as i32);
    let in_left = left <= pos.x < left + cw;
    let in_right = right - cw < pos.x <= right;
    let in_top = top <= pos.y < top + ch;
    let in_bottom = bottom - ch < pos.y <= bottom;
    if in_left && in_top {
        Some(ResizeDirection::TopLeft)
    } else if in_right && in_top {
        Some(ResizeDirection::TopRight)
    } else if in_left && in_bottom {
        Some(ResizeDirection::BottomLeft)
    } else if in_right && in_bottom {
        Some(ResizeDirection::BottomRight)
    } else {
        None
    }
}

pub open spec fn dist(a: int, b: int) -> int {
    if a >= b {
        a - b
    } else {
        b - a
    }
}

/// The edge of `b` nearest to `pos` (ties go to the earlier of left, right, top, bottom).
pub open spec fn spec_nearest_edge(b: Bounds, pos: Position) -> ResizeDirection {
    let l = dist(pos.x as int, b.position.x as int);
    let r = dist(pos.x as int, b.position.x + (b.size.width as i32));
    let t = dist(pos.y as int, b.position.y as int);
    let bo = dist(pos.y as int, b.position.y + (b.size.height as i32));
    let (m1, d1) = if r < l {
        (r, ResizeDirection::Right)
    } else {
        (l, ResizeDirection::Left)
    };
    let (m2, d2) = if t < m1 {
        (t, ResizeDirection::Top)
    } else {
        (m1, d1)
    };
    if bo < m2 {
        ResizeDirection::Bottom
    } else {
        d2
    }
}

/// The kind of a resizing drag started at `pos`: sliding from the middle region,
/// otherwise resizing from the corner region or the nearest edge.
pub open spec fn spec_resize_kind(b: Bounds, pos: Position, z: DragZones, symmetric: bool) -> ModTransformType {
    if spec_in_middle(b, pos, z) {
        ModTransformType::Slide
    } else {
        let d = match spec_corner(b, pos, z.corner_width as int, z.corner_height as int) {
            Some(d) => d,
            None => spec_nearest_edge(b, pos),
        };
        if symmetric {
            ModTransformType::ResizeSymmetric(d)
        } else {
            ModTransformType::Resize(d)
        }
    }
}

fn half(v: i64) -> (r: i64)
    ensures
        r == div_trunc(v as int, 2),
{
    v / 2
}

fn dist_i64(a: i64, b: i64) -> (r: i64)
    requires
        -0x1_0000_0000 <= a <= 0x1_0000_0000,
        -0x1_0000_0000 <= b <= 0x1_0000_0000,
    ensures
        r == dist(a as int, b as int),
{
    if a >= b {
        a - b
    } else {
        b - a
    }
}

/// Whether `pos` lies in the middle region of `bounds`.
pub fn is_position_in_middle(bounds: &Bounds, pos: &Position, zones: &DragZones) -> (b: bool)
    ensures
        b == spec_in_middle(*bounds, *pos, *zones),
{
    let cx = bounds.position.x as i64 + half(bounds.size.width as i32 as i64);
    let cy = bounds.position.y as i64 + half(bounds.size.height as i32 as i64);
    let hw = half(zones.threshold_width as i64);
    let hh = half(zones.threshold_height as i64);
    let x = pos.x as i64;
    let y = pos.y as i64;
    x >= cx - hw && x <= cx + hw && y >= cy - hh && y <= cy + hh
}

/// The corner region of `bounds` that holds `pos`, for corners of the given size.
pub fn detect_corner_wedge(bounds: &Bounds, pos: &Position, corner_w: i32, corner_h: i32) -> (d:
    Option<ResizeDirection>)
    ensures
        d == spec_corner(*bounds, *pos, corner_w as int, corner_h as int),
{
    let left = bounds.position.x as i64;
    let right = bounds.position.x as i64 + bounds.size.width as i32 as i64;
    let top = bounds.position.y as i64;
    let bottom = bounds.position.y as i64 + bounds.size.height as i32 as i64;
    let cw = corner_w as i64;
    let ch = corner_h as i64;
    let x = pos.x as i64;
    let y = pos.y as i64;
    let in_left = left <= x && x < left + cw;
    let in_right = right - cw < x && x <= right;
    let in_top = top <= y && y < top + ch;
    let in_bottom = bottom - ch < y && y <= bottom;
    if in_left && in_top {
        Some(ResizeDirection::TopLeft)
    } else if in_right && in_top {
        Some(ResizeDirection::TopRight)
    } else if in_left && in_bottom {
        Some(ResizeDirection::BottomLeft)
    } else if in_right && in_bottom {
        Some(ResizeDirection::BottomRight)
    } else {
        None
    }
}

/// The edge of `bounds` nearest to `pos`.
pub fn detect_edge(bounds: &Bounds, pos: &Position) -> (d: ResizeDirection)
    ensures
        d == spec_nearest_edge(*bounds, *pos),
{
    let left = bounds.position.x as i64;
    let right = bounds.position.x as i64 + bounds.size.width as i32 as i64;
    let top = bounds.position.y as i64;
    let bottom = bounds.position.y as i64 + bounds.size.height as i32 as i64;
    let left_dist = dist_i64(pos.x as i64, left);
    let right_dist = dist_i64(pos.x as i64, right);
    let top_dist = dist_i64(pos.y as i64, top);
    let bottom_dist = dist_i64(pos.y as i64, bottom);
    let mut min_dist = left_dist;
    let mut dir = ResizeDirection::Left;
    if right_dist < min_dist {
        min_dist = right_dist;
        dir = ResizeDirection::Right;
    }
    if top_dist < min_dist {
        min_dist = top_dist;
        dir = ResizeDirection::Top;
    }
    if bottom_dist < min_dist {
        dir = ResizeDirection::Bottom;
    }
    dir
}

/// The resize direction for a drag started at `pos`: the corner region holding it,
/// otherwise the nearest edge.
pub fn resize_mode(bounds: &Bounds, pos: &Position, zones: &DragZones) -> (d: ResizeDirection)
    ensures
        d == match spec_corner(*bounds, *pos, zones.corner_width as int, zones.corner_height as int) {
            Some(d) => d,
            None => spec_nearest_edge(*bounds, *pos),
        },
{
    if let Some(dir) = detect_corner_wedge(bounds, pos, zones.corner_width, zones.corner_height) {
        return dir;
    }
    detect_edge(bounds, pos)
}

} // verus!

verus! {

/// How a binding decides the kind of the drag it starts.
#[derive(Debug, Clone, Copy, PartialEq, Eq, Structural)]
pub enum BindingKind {
    /// Always the same kind.
    Fixed(ModTransformType),
    /// Slide from the middle region, otherwise resize (symmetrically or not).
    Resizing(bool),
}

pub open spec fn spec_kind_type(kind: BindingKind, b: Bounds, pos: Position, z: DragZones) -> ModTransformType {
    match kind {
        BindingKind::Fixed(t) => t,
        BindingKind::Resizing(symmetric) => spec_resize_kind(b, pos, z, symmetric),
    }
}

/// The drag kind that `kind` gives for a drag started at `pos` on the window `b`.
pub fn kind_type(kind: BindingKind, b: &Bounds, pos: &Position, z: &DragZones) -> (t: ModTransformType)
    ensures
        t == spec_kind_type(kind, *b, *pos, *z),
{
    match kind {
        BindingKind::Fixed(t) => t,
        BindingKind::Resizing(symmetric) => {
            if is_position_in_middle(b, pos, z) {
                ModTransformType::Slide
            } else {
                let d = resize_mode(b, pos, z);
                if symmetric {
                    ModTransformType::ResizeSymmetric(d)
                } else {
                    ModTransformType::Resize(d)
                }
            }
        },
    }
}

/// A modifier drag in progress.
#[derive(Debug, Clone, Copy, PartialEq, Eq, Structural)]
pub struct DragContext {
    pub window: WindowId,
    pub start_position: Position,
    pub start_bounds: Bounds,
    pub drag_type: ModTransformType,
}

/// The drag state after a binding reported `e`, and the drag event that follows.
/// `target` is the window under the mouse, when there is one.
pub open spec fn spec_drag_transition(
    drag: Option<DragContext>,
    kind: BindingKind,
    e: Option<KeybindEvent>,
    target: Option<WindowTarget>,
) -> (Option<DragContext>, Option<ModTransformDragEvent>) {
    match e {
        Some(KeybindEvent::Start(pos)) => match target {
            None => (drag, None),
            Some(t) => {
                let dt = spec_kind_type(kind, t.bounds, pos, t.zones);
                (
                    Some(DragContext { window: t.id, start_position: pos, start_bounds: t.bounds, drag_type: dt }),
                    Some(ModTransformDragEvent::Start(t.id, pos, dt)),
                )
            },
        },
        Some(KeybindEvent::Drag(pos)) => (
            drag,
            match drag {
                Some(d) => Some(ModTransformDragEvent::Drag(d.window, pos, d.drag_type)),
                None => None,
            },
        ),
        Some(KeybindEvent::End(pos)) => (
            None,
            match drag {
                Some(d) => Some(ModTransformDragEvent::End(d.window, pos, d.drag_type)),
                None => None,
            },
        ),
        Some(KeybindEvent::Cancel) => (
            None,
            match drag {
                Some(d) => Some(ModTransformDragEvent::Cancel(d.window, d.drag_type)),
                None => None,
            },
        ),
        None => (drag, None),
    }
}

/// The order in which drag events are handed on: ends, cancels, drags, starts.
pub open spec fn event_rank(e: ModTransformDragEvent) -> int {
    match e {
        ModTransformDragEvent::End(..) => 0,
        ModTransformDragEvent::Cancel(..) => 1,
        ModTransformDragEvent::Drag(..) => 2,
        ModTransformDragEvent::Start(..) => 3,
    }
}

/// The events of `s` of rank `k`, in order.
pub open spec fn of_rank(s: Seq<ModTransformDragEvent>, k: int) -> Seq<ModTransformDragEvent>
    decreases s.len(),
{
    if s.len() == 0 {
        Seq::empty()
    } else if event_rank(s.last()) == k {
        of_rank(s.drop_last(), k).push(s.last())
    } else {
        of_rank(s.drop_last(), k)
    }
}

/// `s` stably sorted by rank.
pub open spec fn by_rank(s: Seq<ModTransformDragEvent>) -> Seq<ModTransformDragEvent> {
    of_rank(s, 0) + of_rank(s, 1) + of_rank(s, 2) + of_rank(s, 3)
}

/// The present events of `s`, in order.
pub open spec fn present(s: Seq<Option<ModTransformDragEvent>>) -> Seq<ModTransformDragEvent>
    decreases s.len(),
{
    if s.len() == 0 {
        Seq::empty()
    } else {
        match s.last() {
            Some(e) => present(s.drop_last()).push(e),
            None => present(s.drop_last()),
        }
    }
}

fn collect_rank(s: &Vec<ModTransformDragEvent>, k: u8, out: &mut Vec<ModTransformDragEvent>)
    ensures
        final(out)@ == old(out)@ + of_rank(s@, k as int),
{
    let ghost start = out@;
    for i in 0..s.len()
        invariant
            out@ == start + of_rank(s@.subrange(0, i as int), k as int),
    {
        assert(s@.subrange(0, i + 1).drop_last() == s@.subrange(0, i as int));
        let e = s[i];
        let r: u8 = match e {
            ModTransformDragEvent::End(..) => 0,
            ModTransformDragEvent::Cancel(..) => 1,
            ModTransformDragEvent::Drag(..) => 2,
            ModTransformDragEvent::Start(..) => 3,
        };
        if r == k {
            out.push(e);
        }
        assert(out@ =~= start + of_rank(s@.subrange(0, i + 1), k as int));
    }
    assert(s@.subrange(0, s@.len() as int) == s@);
}

/// The events stably sorted so that ends come first, then cancels, drags and starts.
pub fn sort_by_rank(s: &Vec<ModTransformDragEvent>) -> (r: Vec<ModTransformDragEvent>)
    ensures
        r@ == by_rank(s@),
{
    let mut r: Vec<ModTransformDragEvent> = Vec::new();
    collect_rank(s, 0, &mut r);
    collect_rank(s, 1, &mut r);
    collect_rank(s, 2, &mut r);
    collect_rank(s, 3, &mut r);
    assert(r@ =~= by_rank(s@));
    r
}

/// What one event did to a modifier binding: the tracker's outcome and the drag event.
#[derive(Debug, Clone, Copy, PartialEq, Eq, Structural)]
pub struct BindingOutcome {
    pub step: KeybindStep,
    pub event: Option<ModTransformDragEvent>,
}

/// Feeds `event` to one binding and its drag slot.
pub fn handle_binding(
    event: &WMEvent,
    binding: &mut ModMouseKeybindTracker,
    kind: BindingKind,
    input: &InputState,
    target: Option<WindowTarget>,
    current_drag: &mut Option<DragContext>,
) -> (r: BindingOutcome)
    ensures
        final(binding).keybind@ == old(binding).keybind@,
        final(binding).included_buttons@ == old(binding).included_buttons@,
        (final(binding).flags, r.step) == crate::event_handlers::mod_mouse_keybind_tracker::spec_keybind_step(
            old(binding).flags,
            old(binding).keybind@,
            *event,
            input.keys@,
            input.buttons@,
        ),
        (*final(current_drag), r.event) == spec_drag_transition(*old(current_drag), kind, r.step.event, target),
{
    let step = binding.handle_event(event, input);
    let ev = match step.event {
        Some(KeybindEvent::Start(pos)) => match target {
            None => None,
            Some(t) => {
                let drag_type = kind_type(kind, &t.bounds, &pos, &t.zones);
                *current_drag = Some(
                    DragContext { window: t.id, start_position: pos, start_bounds: t.bounds, drag_type },
                );
                Some(ModTransformDragEvent::Start(t.id, pos, drag_type))
            },
        },
        Some(KeybindEvent::Drag(pos)) => match *current_drag {
            Some(d) => Some(ModTransformDragEvent::Drag(d.window, pos, d.drag_type)),
            None => None,
        },
        Some(KeybindEvent::End(pos)) => {
            let d = current_drag.take();
            match d {
                Some(d) => Some(ModTransformDragEvent::End(d.window, pos, d.drag_type)),
                None => None,
            }
        },
        Some(KeybindEvent::Cancel) => {
            let d = current_drag.take();
            match d {
                Some(d) => Some(ModTransformDragEvent::Cancel(d.window, d.drag_type)),
                None => None,
            }
        },
        None => None,
    };
    BindingOutcome { step, event: ev }
}

} // verus!

verus! {

/// `outcome` is what `event` does to a binding tracker and its drag slot,
/// going from (`b0`, `d0`) to (`b1`, `d1`).
pub open spec fn binding_stepped(
    b0: ModMouseKeybindTracker,
    d0: Option<DragContext>,
    b1: ModMouseKeybindTracker,
    d1: Option<DragContext>,
    kind: BindingKind,
    event: WMEvent,
    input: InputState,
    target: Option<WindowTarget>,
    outcome: BindingOutcome,
) -> bool {
    &&& b1.keybind@ == b0.keybind@
    &&& b1.included_buttons@ == b0.included_buttons@
    &&& (b1.flags, outcome.step) == crate::event_handlers::mod_mouse_keybind_tracker::spec_keybind_step(
        b0.flags,
        b0.keybind@,
        event,
        input.keys@,
        input.buttons@,
    )
    &&& (d1, outcome.event) == spec_drag_transition(d0, kind, outcome.step.event, target)
}

/// What one event did to the modifier bindings.
#[derive(Debug, Clone)]
pub struct ModTransformOutcome {
    /// The drag events, ends first, then cancels, drags and starts.
    pub events: Vec<ModTransformDragEvent>,
    /// Per binding (tile, float, shift, toggle, resize, symmetric resize), what it did.
    pub bindings: Vec<BindingOutcome>,
}

/// `after` is `before` with its interception granted when `granted`, and
/// `before` itself otherwise.
pub open spec fn granted_or_kept(before: ModMouseKeybindTracker, after: ModMouseKeybindTracker, granted: bool) -> bool {
    if granted {
        &&& after.keybind@ == before.keybind@
        &&& after.included_buttons@ == before.included_buttons@
        &&& after.flags == (TrackerFlags { intercepting: true, ..before.flags })
    } else {
        after == before
    }
}

/// Follows the six modifier bindings that move, float, shift, toggle and resize windows.
#[derive(Debug)]
pub struct ModTransformTracker {
    pub tile_binding: ModMouseKeybindTracker,
    pub float_binding: ModMouseKeybindTracker,
    pub shift_binding: ModMouseKeybindTracker,
    pub toggle_binding: ModMouseKeybindTracker,
    pub resize_binding: ModMouseKeybindTracker,
    pub resize_symmetric_binding: ModMouseKeybindTracker,
    pub tile_drag: Option<DragContext>,
    pub float_drag: Option<DragContext>,
    pub shift_drag: Option<DragContext>,
    pub toggle_drag: Option<DragContext>,
    pub resize_drag: Option<DragContext>,
    pub resize_symmetric_drag: Option<DragContext>,
}

impl ModTransformTracker {
    /// Trackers at rest for the given bindings, with no drag in progress.
    pub fn new(bindings: &ModTransformBindings) -> (t: ModTransformTracker)
        ensures
            t.tile_binding.keybind@ == bindings.tile@,
            t.float_binding.keybind@ == bindings.float@,
            t.shift_binding.keybind@ == bindings.shift@,
            t.toggle_binding.keybind@ == bindings.toggle@,
            t.resize_binding.keybind@ == bindings.resize@,
            t.resize_symmetric_binding.keybind@ == bindings.resize_symmetric@,
            !t.tile_binding.flags.intercepting && !t.tile_binding.flags.active,
            !t.float_binding.flags.intercepting && !t.float_binding.flags.active,
            !t.shift_binding.flags.intercepting && !t.shift_binding.flags.active,
            !t.toggle_binding.flags.intercepting && !t.toggle_binding.flags.active,
            !t.resize_binding.flags.intercepting && !t.resize_binding.flags.active,
            !t.resize_symmetric_binding.flags.intercepting && !t.resize_symmetric_binding.flags.active,
            t.tile_drag is None && t.float_drag is None && t.shift_drag is None,
            t.toggle_drag is None && t.resize_drag is None && t.resize_symmetric_drag is None,
    {
        ModTransformTracker {
            tile_binding: ModMouseKeybindTracker::new(bindings.tile.clone()),
            float_binding: ModMouseKeybindTracker::new(bindings.float.clone()),
            shift_binding: ModMouseKeybindTracker::new(bindings.shift.clone()),
            toggle_binding: ModMouseKeybindTracker::new(bindings.toggle.clone()),
            resize_binding: ModMouseKeybindTracker::new(bindings.resize.clone()),
            resize_symmetric_binding: ModMouseKeybindTracker::new(bindings.resize_symmetric.clone()),
            tile_drag: None,
            float_drag: None,
            shift_drag: None,
            toggle_drag: None,
            resize_drag: None,
            resize_symmetric_drag: None,
        }
    }

    /// Some binding has its modifiers held.
    pub fn active(&self) -> (b: bool)
        ensures
            b == (self.tile_binding.flags.intercepting || self.float_binding.flags.intercepting
                || self.shift_binding.flags.intercepting || self.toggle_binding.flags.intercepting
                || self.resize_binding.flags.intercepting
                || self.resize_symmetric_binding.flags.intercepting),
    {
        self.tile_binding.mod_held() || self.float_binding.mod_held() || self.shift_binding.mod_held()
            || self.toggle_binding.mod_held() || self.resize_binding.mod_held()
            || self.resize_symmetric_binding.mod_held()
    }

    /// Feeds `event` to every binding, in order, and hands on their drag events
    /// sorted so that ends come before cancels, drags and starts. `target` is the
    /// window under the mouse (with its regions), when there is one.
    pub fn handle_event(&mut self, event: &WMEvent, input: &InputState, target: Option<WindowTarget>) -> (r:
        ModTransformOutcome)
        ensures
            r.bindings@.len() == 6,
            binding_stepped(old(self).tile_binding, old(self).tile_drag, final(self).tile_binding, final(self).tile_drag,
                BindingKind::Fixed(ModTransformType::Tile), *event, *input, target, r.bindings@[0]),
            binding_stepped(old(self).float_binding, old(self).float_drag, final(self).float_binding, final(self).float_drag,
                BindingKind::Fixed(ModTransformType::Float), *event, *input, target, r.bindings@[1]),
            binding_stepped(old(self).shift_binding, old(self).shift_drag, final(self).shift_binding, final(self).shift_drag,
                BindingKind::Fixed(ModTransformType::Shift), *event, *input, target, r.bindings@[2]),
            binding_stepped(old(self).toggle_binding, old(self).toggle_drag, final(self).toggle_binding, final(self).toggle_drag,
                BindingKind::Fixed(ModTransformType::Toggle), *event, *input, target, r.bindings@[3]),
            binding_stepped(old(self).resize_binding, old(self).resize_drag, final(self).resize_binding, final(self).resize_drag,
                BindingKind::Resizing(false), *event, *input, target, r.bindings@[4]),
            binding_stepped(old(self).resize_symmetric_binding, old(self).resize_symmetric_drag,
                final(self).resize_symmetric_binding, final(self).resize_symmetric_drag,
                BindingKind::Resizing(true), *event, *input, target, r.bindings@[5]),
            r.events@ == by_rank(present(r.bindings@.map_values(|o: BindingOutcome| o.event))),
    {
        let o0 = handle_binding(event, &mut self.tile_binding, BindingKind::Fixed(ModTransformType::Tile), input, target, &mut self.tile_drag);
        let o1 = handle_binding(event, &mut self.float_binding, BindingKind::Fixed(ModTransformType::Float), input, target, &mut self.float_drag);
        let o2 = handle_binding(event, &mut self.shift_binding, BindingKind::Fixed(ModTransformType::Shift), input, target, &mut self.shift_drag);
        let o3 = handle_binding(event, &mut self.toggle_binding, BindingKind::Fixed(ModTransformType::Toggle), input, target, &mut self.toggle_drag);
        let o4 = handle_binding(event, &mut self.resize_binding, BindingKind::Resizing(false), input, target, &mut self.resize_drag);
        let o5 = handle_binding(event, &mut self.resize_symmetric_binding, BindingKind::Resizing(true), input, target, &mut self.resize_symmetric_drag);
        let bindings = vec![o0, o1, o2, o3, o4, o5];
        let mut collected: Vec<ModTransformDragEvent> = Vec::new();
        for i in 0..bindings.len()
            invariant
                collected@ == present(bindings@.subrange(0, i as int).map_values(|o: BindingOutcome| o.event)),
        {
            assert(bindings@.subrange(0, i + 1).map_values(|o: BindingOutcome| o.event).drop_last()
                =~= bindings@.subrange(0, i as int).map_values(|o: BindingOutcome| o.event));
            if let Some(e) = bindings[i].event {
                collected.push(e);
            }
        }
        assert(bindings@.subrange(0, bindings@.len() as int) == bindings@);
        let events = sort_by_rank(&collected);
        ModTransformOutcome { events, bindings }
    }

    /// Records that the interception asked for by binding `index` was granted
    /// (0 tile, 1 float, 2 shift, 3 toggle, 4 resize, 5 symmetric resize; others are ignored).
    pub fn interception_granted(&mut self, index: usize)
        ensures
            granted_or_kept(old(self).tile_binding, final(self).tile_binding, index == 0),
            granted_or_kept(old(self).float_binding, final(self).float_binding, index == 1),
            granted_or_kept(old(self).shift_binding, final(self).shift_binding, index == 2),
            granted_or_kept(old(self).toggle_binding, final(self).toggle_binding, index == 3),
            granted_or_kept(old(self).resize_binding, final(self).resize_binding, index == 4),
            granted_or_kept(old(self).resize_symmetric_binding, final(self).resize_symmetric_binding, index == 5),
            final(self).tile_drag == old(self).tile_drag,
            final(self).float_drag == old(self).float_drag,
            final(self).shift_drag == old(self).shift_drag,
            final(self).toggle_drag == old(self).toggle_drag,
            final(self).resize_drag == old(self).resize_drag,
            final(self).resize_symmetric_drag == old(self).resize_symmetric_drag,
    {
        match index {
            0 => self.tile_binding.interception_granted(),
            1 => self.float_binding.interception_granted(),
            2 => self.shift_binding.interception_granted(),
            3 => self.toggle_binding.interception_granted(),
            4 => self.resize_binding.interception_granted(),
            5 => self.resize_symmetric_binding.interception_granted(),
            _ => {},
        }
    }
}


/// How far `pos` is from the edge `d` of `b` (left, right, top or bottom);
/// other directions are not edges.
pub open spec fn edge_distance(b: Bounds, pos: Position, d: ResizeDirection) -> int {
    match d {
        ResizeDirection::Left => dist(pos.x as int, b.position.x as int),
        ResizeDirection::Right => dist(pos.x as int, b.position.x + (b.size.width as i32)),
        ResizeDirection::Top => dist(pos.y as int, b.position.y as int),
        ResizeDirection::Bottom => dist(pos.y as int, b.position.y + (b.size.height as i32)),
        _ => -1,
    }
}

/// The order in which edges win a tie: left, right, top, bottom.
pub open spec fn edge_rank(d: ResizeDirection) -> int {
    match d {
        ResizeDirection::Left => 0,
        ResizeDirection::Right => 1,
        ResizeDirection::Top => 2,
        ResizeDirection::Bottom => 3,
        _ => 4,
    }
}

/// A resize started away from the corners takes the edge nearest to the
/// mouse: the result is one of the four edges, no edge is nearer, and among
/// edges at the same distance the earlier of left, right, top, bottom wins.
pub proof fn lemma_nearest_edge_is_nearest(b: Bounds, pos: Position, other: ResizeDirection)
    requires
        edge_rank(other) < 4,
    ensures
        edge_rank(spec_nearest_edge(b, pos)) < 4,
        edge_distance(b, pos, spec_nearest_edge(b, pos)) <= edge_distance(b, pos, other),
        edge_distance(b, pos, spec_nearest_edge(b, pos)) == edge_distance(b, pos, other) ==> edge_rank(
            spec_nearest_edge(b, pos),
        ) <= edge_rank(other),
{
}


/// A corner is chosen only when the mouse is inside that corner's region of
/// `b` (`cw` wide and `ch` high, at that corner), and whenever the mouse is
/// in some corner region a corner is chosen.
pub proof fn lemma_corner_is_where_the_mouse_is(b: Bounds, pos: Position, cw: int, ch: int)
    ensures
        ({
            let left = b.position.x as int;
            let right = b.position.x + (b.size.width as i32);
            let top = b.position.y as int;
            let bottom = b.position.y + (b.size.height as i32);
            let near_left = left <= pos.x < left + cw;
            let near_right = right - cw < pos.x <= right;
            let near_top = top <= pos.y < top + ch;
            let near_bottom = bottom - ch < pos.y <= bottom;
            &&& spec_corner(b, pos, cw, ch) == Some(ResizeDirection::TopLeft) ==> near_left && near_top
            &&& spec_corner(b, pos, cw, ch) == Some(ResizeDirection::TopRight) ==> near_right && near_top
            &&& spec_corner(b, pos, cw, ch) == Some(ResizeDirection::BottomLeft) ==> near_left && near_bottom
            &&& spec_corner(b, pos, cw, ch) == Some(ResizeDirection::BottomRight) ==> near_right && near_bottom
            &&& spec_corner(b, pos, cw, ch) matches Some(d) ==> d == ResizeDirection::TopLeft || d
                == ResizeDirection::TopRight || d == ResizeDirection::BottomLeft || d == ResizeDirection::BottomRight
            &&& ((near_left || near_right) && (near_top || near_bottom)) ==> spec_corner(b, pos, cw, ch) is Some
        }),
{
}

} // verus!
