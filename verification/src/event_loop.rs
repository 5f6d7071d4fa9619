use vstd::prelude::*;
use crate::geometry::WindowId;
use crate::platform::{ContextMenuRequest, WMEvent};

verus! {

/// Whether the event loop goes on.
#[derive(Debug, Clone, Copy, PartialEq, Eq, Structural)]
pub enum LoopControl {
    Continue,
    Break,
}

/// What the window manager does with a window event.
#[derive(Debug, Clone, Copy, PartialEq, Eq, Structural)]
pub enum WindowAction {
    Track(WindowId),
    Unhide(WindowId),
    Remove(WindowId),
}

/// The steps the event loop takes for one event, in this order: reload the
/// configuration, update the input state, act on the window, hand the event to
/// the handlers, show the context menu.
#[derive(Debug, Clone, Copy, PartialEq, Eq, Structural)]
pub struct EventPlan {
    pub control: LoopControl,
    pub reload_config: bool,
    pub window_action: Option<WindowAction>,
    pub dispatch: bool,
    pub context_menu: Option<ContextMenuRequest>,
}

/// The plan for an event; `None` means that the event source closed.
pub open spec fn spec_plan(event: Option<WMEvent>) -> EventPlan {
    match event {
        None => EventPlan {
            control: LoopControl::Break,
            reload_config: false,
            window_action: None,
            dispatch: false,
            context_menu: None,
        },
        Some(WMEvent::Shutdown) => EventPlan {
            control: LoopControl::Break,
            reload_config: false,
            window_action: None,
            dispatch: false,
            context_menu: None,
        },
        Some(e) => EventPlan {
            control: LoopControl::Continue,
            reload_config: e is ConfigChanged,
            window_action: match e {
                WMEvent::WindowOpened(id) => Some(WindowAction::Track(id)),
                WMEvent::WindowShown(id) => Some(WindowAction::Unhide(id)),
                WMEvent::WindowClosed(id) => Some(WindowAction::Remove(id)),
                WMEvent::WindowHidden(id) => Some(WindowAction::Remove(id)),
                _ => None,
            },
            dispatch: true,
            context_menu: match e {
                WMEvent::ShowContextMenu(r) => Some(r),
                _ => None,
            },
        },
    }
}

/// What the event loop does for `event`.
pub fn plan_event(event: Option<&WMEvent>) -> (p: EventPlan)
    ensures
        p == spec_plan(match event {
            Some(e) => Some(*e),
            None => None,
        }),
{
    let event = match event {
        None => {
            return EventPlan {
                control: LoopControl::Break,
                reload_config: false,
                window_action: None,
                dispatch: false,
                context_menu: None,
            };
        },
        Some(e) => e,
    };
    if let WMEvent::Shutdown = event {
        return EventPlan {
            control: LoopControl::Break,
            reload_config: false,
            window_action: None,
            dispatch: false,
            context_menu: None,
        };
    }
    let reload_config = match event {
        WMEvent::ConfigChanged => true,
        _ => false,
    };
    let window_action = match event {
        WMEvent::WindowOpened(id) => Some(WindowAction::Track(*id)),
        WMEvent::WindowShown(id) => Some(WindowAction::Unhide(*id)),
        WMEvent::WindowClosed(id) | WMEvent::WindowHidden(id) => Some(WindowAction::Remove(*id)),
        _ => None,
    };
    let context_menu = match event {
        WMEvent::ShowContextMenu(request) => Some(*request),
        _ => None,
    };
    EventPlan { control: LoopControl::Continue, reload_config, window_action, dispatch: true, context_menu }
}

/// The period, in milliseconds, at which pending window changes are flushed
/// for the configured number of updates per second (at least one).
pub fn flush_interval_ms(live_window_resize_fps: u32) -> (ms: u32)
    ensures
        ms == 1000u32 / (if live_window_resize_fps < 1 { 1u32 } else { live_window_resize_fps }),
{
    let fps = if live_window_resize_fps < 1 { 1 } else { live_window_resize_fps };
    1000 / fps
}

/// The first handler an event goes to: the one holding the events, else the first.
pub open spec fn spec_first(d: Dispatcher) -> Option<usize> {
    match d.current_handler {
        Some(i) => Some(i),
        None => if d.handler_count > 0 {
            Some(0usize)
        } else {
            None
        },
    }
}

/// The dispatcher after handler `index` took the event or not, and the next
/// handler to give the event to.
pub open spec fn spec_after_call(d: Dispatcher, index: usize, handled: bool) -> (Dispatcher, Option<usize>) {
    match d.current_handler {
        Some(_) => (
            Dispatcher { current_handler: if handled { d.current_handler } else { None }, ..d },
            None,
        ),
        None => if handled {
            (Dispatcher { current_handler: Some(index), ..d }, None)
        } else {
            (d, if index + 1 < d.handler_count { Some((index + 1) as usize) } else { None })
        },
    }
}

/// Hands each event to the handlers in order until one takes it; the handler
/// that took the last event gets the next one alone, until it declines one.
#[derive(Debug, Clone, Copy, PartialEq, Eq, Structural)]
pub struct Dispatcher {
    pub current_handler: Option<usize>,
    pub handler_count: usize,
}

impl Dispatcher {
    /// No handler has taken an event yet.
    pub fn new(handler_count: usize) -> (d: Dispatcher)
        ensures
            d == (Dispatcher { current_handler: None, handler_count }),
    {
        Dispatcher { current_handler: None, handler_count }
    }

    /// The handlers were created anew: none holds the events.
    pub fn reset(&mut self, handler_count: usize)
        ensures
            *final(self) == (Dispatcher { current_handler: None, handler_count }),
    {
        self.current_handler = None;
        self.handler_count = handler_count;
    }

    /// The first handler to give an event to.
    pub fn first(&self) -> (r: Option<usize>)
        ensures
            r == spec_first(*self),
    {
        match self.current_handler {
            Some(i) => Some(i),
            None => if self.handler_count > 0 {
                Some(0)
            } else {
                None
            },
        }
    }

    /// Handler `index` was given the event and took it or not: the next
    /// handler to give it to, if any.
    pub fn after_call(&mut self, index: usize, handled: bool) -> (next: Option<usize>)
        ensures
            (*final(self), next) == spec_after_call(*old(self), index, handled),
    {
        match self.current_handler {
            Some(_) => {
                if !handled {
                    self.current_handler = None;
                }
                None
            },
            None => {
                if handled {
                    self.current_handler = Some(index);
                    None
                } else if index < self.handler_count && index + 1 < self.handler_count {
                    Some(index + 1)
                } else {
                    None
                }
            },
        }
    }
}


/// A handler that takes an event during a scan holds the events: the next
/// event goes to it first and, whether it takes that one or not, to no other
/// handler; if it declines, the event after starts a new scan from the first.
pub proof fn lemma_handler_holds_events(d: Dispatcher, index: usize, next_handled: bool)
    requires
        d.current_handler is None,
    ensures
        ({
            let (d1, n1) = spec_after_call(d, index, true);
            let (d2, n2) = spec_after_call(d1, index, next_handled);
            &&& n1 is None
            &&& spec_first(d1) == Some(index)
            &&& n2 is None
            &&& d2.current_handler == if next_handled { Some(index) } else { None }
            &&& !next_handled ==> spec_first(d2) == if d.handler_count > 0 { Some(0usize) } else { None }
        }),
{
}

/// A scan in which no handler takes the event visits each handler once, in
/// order, and holds nothing.
pub proof fn lemma_scan_visits_in_order(d: Dispatcher, index: usize)
    requires
        d.current_handler is None,
    ensures
        ({
            let (d1, n) = spec_after_call(d, index, false);
            &&& d1 == d
            &&& n == if index + 1 < d.handler_count { Some((index + 1) as usize) } else { None }
        }),
{
}

} // verus!
