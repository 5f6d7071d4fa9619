use vstd::prelude::*;
use crate::drag_tracker::abs_i32;
use crate::geometry::{in_i32, Position, WindowId};
use crate::platform::WMEvent;

verus! {

/// How far (in pixels, on either axis) the mouse must move for a new check
/// before the check interval has passed.
pub const SIGNIFICANT_MOVE: i32 = 50;

/// The check interval, in milliseconds: at most ten checks per second.
pub const CHECK_INTERVAL_MS: u64 = 100;

/// Focuses the window under the mouse, checking at most once per interval
/// unless the mouse moved far.
#[derive(Debug, Clone, Copy, PartialEq, Eq, Structural)]
pub struct FocusOnHoverHandler {
    pub enabled: bool,
    pub last_focused_window: Option<WindowId>,
    /// When the last check was made, in milliseconds of a monotonic clock.
    pub last_check_time: u64,
    pub last_check_position: Option<Position>,
    pub check_interval: u64,
}

/// The distance moved since the last check can be computed in `i32`.
pub open spec fn movement_in_range(last: Option<Position>, pos: Position) -> bool {
    match last {
        Some(l) => {
            &&& in_i32(pos.x - l.x) && pos.x - l.x != i32::MIN
            &&& in_i32(pos.y - l.y) && pos.y - l.y != i32::MIN
        },
        None => true,
    }
}

/// Whether a mouse move to `pos` at time `now` calls for a check: always the
/// first time, then when the mouse moved more than the threshold on an axis or
/// the interval has passed (a clock that went back counts as no time passed).
pub open spec fn spec_should_check(h: FocusOnHoverHandler, pos: Position, now: u64) -> bool {
    match h.last_check_position {
        None => true,
        Some(l) => {
            let dx = if pos.x >= l.x { pos.x - l.x } else { l.x - pos.x };
            let dy = if pos.y >= l.y { pos.y - l.y } else { l.y - pos.y };
            let elapsed = if now >= h.last_check_time { now - h.last_check_time } else { 0 };
            dx > SIGNIFICANT_MOVE || dy > SIGNIFICANT_MOVE || elapsed >= h.check_interval
        },
    }
}

impl FocusOnHoverHandler {
    /// A handler that has not checked yet; `enabled` comes from the
    /// configuration and `now` is the current time in milliseconds.
    pub fn new(enabled: bool, now: u64) -> (h: FocusOnHoverHandler)
        ensures
            h == (FocusOnHoverHandler {
                enabled,
                last_focused_window: None,
                last_check_time: now,
                last_check_position: None,
                check_interval: CHECK_INTERVAL_MS,
            }),
    {
        FocusOnHoverHandler {
            enabled,
            last_focused_window: None,
            last_check_time: now,
            last_check_position: None,
            check_interval: CHECK_INTERVAL_MS,
        }
    }

    /// Takes the setting from a new configuration.
    pub fn update_config(&mut self, enabled: bool)
        ensures
            *final(self) == (FocusOnHoverHandler { enabled, ..*old(self) }),
    {
        self.enabled = enabled;
    }

    /// The distance to `pos` from the last checked position can be computed.
    pub fn movement_fits(&self, pos: &Position) -> (b: bool)
        ensures
            b == movement_in_range(self.last_check_position, *pos),
    {
        match self.last_check_position {
            Some(l) => {
                let dx: i64 = pos.x as i64 - l.x as i64;
                let dy: i64 = pos.y as i64 - l.y as i64;
                -2147483648 < dx && dx <= 2147483647 && -2147483648 < dy && dy <= 2147483647
            },
            None => true,
        }
    }

    /// A mouse move to `pos` at time `now`; `window_at` is the window under the
    /// mouse. Returns the window to focus, if any; once it is focused, report it
    /// with `focused`.
    pub fn mouse_moved(&mut self, pos: &Position, now: u64, window_at: Option<WindowId>) -> (r: Option<WindowId>)
        requires
            movement_in_range(old(self).last_check_position, *pos),
        ensures
            final(self).enabled == old(self).enabled,
            final(self).last_focused_window == old(self).last_focused_window,
            final(self).check_interval == old(self).check_interval,
            if old(self).enabled && spec_should_check(*old(self), *pos, now) {
                &&& final(self).last_check_time == now
                &&& final(self).last_check_position == Some(*pos)
                &&& r == match window_at {
                    Some(w) => if old(self).last_focused_window != Some(w) {
                        Some(w)
                    } else {
                        None
                    },
                    None => None,
                }
            } else {
                *final(self) == *old(self) && r is None
            },
    {
        if !self.enabled {
            return None;
        }
        let should_check = match self.last_check_position {
            Some(last_pos) => {
                let dx = abs_i32(pos.x - last_pos.x);
                let dy = abs_i32(pos.y - last_pos.y);
                let moved_significantly = dx > SIGNIFICANT_MOVE || dy > SIGNIFICANT_MOVE;
                let elapsed = now.saturating_sub(self.last_check_time);
                let time_elapsed = elapsed >= self.check_interval;
                moved_significantly || time_elapsed
            },
            None => true,
        };
        if !should_check {
            return None;
        }
        self.last_check_time = now;
        self.last_check_position = Some(*pos);
        match window_at {
            Some(window_id) => {
                if self.last_focused_window != Some(window_id) {
                    Some(window_id)
                } else {
                    None
                }
            },
            None => None,
        }
    }

    /// Records that the window was focused.
    pub fn focused(&mut self, window_id: WindowId)
        ensures
            *final(self) == (FocusOnHoverHandler { last_focused_window: Some(window_id), ..*old(self) }),
    {
        self.last_focused_window = Some(window_id);
    }

    /// Handles `event`; focusing never consumes it. A mouse move gives the
    /// window to focus as `mouse_moved` does; a configuration change takes
    /// `enabled` from the new configuration.
    pub fn handle_event(&mut self, event: &WMEvent, now: u64, window_at: Option<WindowId>, enabled: bool) -> (r: (
        Option<WindowId>,
        bool,
    ))
        requires
            old(self).enabled ==> match *event {
                WMEvent::MouseMoved(pos) => movement_in_range(old(self).last_check_position, pos),
                _ => true,
            },
        ensures
            !r.1,
            !old(self).enabled ==> *final(self) == *old(self) && r.0 is None,
            old(self).enabled ==> match *event {
                WMEvent::MouseMoved(pos) => if spec_should_check(*old(self), pos, now) {
                    &&& *final(self) == (FocusOnHoverHandler {
                        last_check_time: now,
                        last_check_position: Some(pos),
                        ..*old(self)
                    })
                    &&& r.0 == match window_at {
                        Some(w) => if old(self).last_focused_window != Some(w) {
                            Some(w)
                        } else {
                            None
                        },
                        None => None,
                    }
                } else {
                    *final(self) == *old(self) && r.0 is None
                },
                WMEvent::ConfigChanged => *final(self) == (FocusOnHoverHandler { enabled, ..*old(self) })
                    && r.0 is None,
                _ => *final(self) == *old(self) && r.0 is None,
            },
    {
        if !self.enabled {
            return (None, false);
        }
        match event {
            WMEvent::MouseMoved(pos) => (self.mouse_moved(pos, now, window_at), false),
            WMEvent::ConfigChanged => {
                self.update_config(enabled);
                (None, false)
            },
            _ => (None, false),
        }
    }
}

} // verus!
