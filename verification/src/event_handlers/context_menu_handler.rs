use vstd::prelude::*;
use crate::commands::CommandContext;
use crate::config::keybind::ModMouseKeybind;
use crate::event_handlers::mod_mouse_keybind_tracker::{
    spec_keybind_step, KeybindEvent, KeybindStep, ModMouseKeybindTracker, TrackerFlags,
};
use crate::geometry::{Position, WindowId};
use crate::platform::{ContextMenuRequest, InputState, WMEvent};

verus! {

/// The commands the context menu offers.
#[derive(Debug, Clone, Copy, PartialEq, Eq, Structural)]
pub enum MenuCommand {
    OrganizeCurrentWindow,
    OrganizeAllWindows,
    FloatWindow,
    CloseWindow,
    MinimizeWindow,
}

/// An entry of the context menu.
#[derive(Debug, Clone, Copy, PartialEq, Eq, Structural)]
pub enum MenuEntry {
    /// The application's name and version.
    Title,
    Separator,
    Command(MenuCommand),
}

/// The context handed to the menu's commands and the entries of the menu for a request.
pub open spec fn spec_menu(request: ContextMenuRequest) -> (CommandContext, Seq<MenuEntry>) {
    let context = match request.target_window {
        Some(w) => CommandContext { target_window: Some(w), position: None },
        None => CommandContext { target_window: None, position: Some(request.position) },
    };
    let common = seq![
        MenuEntry::Title,
        MenuEntry::Separator,
        MenuEntry::Command(MenuCommand::OrganizeCurrentWindow),
        MenuEntry::Command(MenuCommand::OrganizeAllWindows),
    ];
    let window = seq![
        MenuEntry::Separator,
        MenuEntry::Command(MenuCommand::FloatWindow),
        MenuEntry::Command(MenuCommand::CloseWindow),
        MenuEntry::Command(MenuCommand::MinimizeWindow),
    ];
    (context, if request.target_window is Some { common + window } else { common })
}

/// The context and entries of the context menu: the window commands appear
/// only when the menu was opened over a window.
pub fn context_menu_entries(request: &ContextMenuRequest) -> (r: (CommandContext, Vec<MenuEntry>))
    ensures
        (r.0, r.1@) == spec_menu(*request),
{
    let context = match request.target_window {
        Some(window_id) => CommandContext::with_window(window_id),
        None => CommandContext::with_position(request.position),
    };
    let mut entries: Vec<MenuEntry> = vec![
        MenuEntry::Title,
        MenuEntry::Separator,
        MenuEntry::Command(MenuCommand::OrganizeCurrentWindow),
        MenuEntry::Command(MenuCommand::OrganizeAllWindows),
    ];
    if request.target_window.is_some() {
        entries.push(MenuEntry::Separator);
        entries.push(MenuEntry::Command(MenuCommand::FloatWindow));
        entries.push(MenuEntry::Command(MenuCommand::CloseWindow));
        entries.push(MenuEntry::Command(MenuCommand::MinimizeWindow));
    }
    assert(entries@ =~= spec_menu(*request).1);
    (context, entries)
}

/// What the context-menu handler decided for an event.
#[derive(Debug, Clone, Copy, PartialEq, Eq, Structural)]
pub struct ContextMenuOutcome {
    /// The menu to show, when the binding was clicked without a drag.
    pub request: Option<ContextMenuRequest>,
    /// What the binding's tracker reported.
    pub step: KeybindStep,
    pub handled: bool,
}

/// The binding was released without a drag having started: a click.
pub open spec fn is_click(flags: TrackerFlags, step: KeybindStep) -> bool {
    step.event matches Some(KeybindEvent::End(_)) && !flags.started
}

/// Opens the context menu when its modifier binding is clicked.
#[derive(Debug)]
pub struct ContextMenuHandler {
    pub tracker: ModMouseKeybindTracker,
}

impl ContextMenuHandler {
    /// A handler for the context-menu binding of the configuration.
    pub fn new(binding: ModMouseKeybind) -> (h: ContextMenuHandler)
        ensures
            h.tracker.keybind@ == binding@,
            !h.tracker.flags.active && !h.tracker.flags.started && !h.tracker.flags.intercepting,
    {
        ContextMenuHandler { tracker: ModMouseKeybindTracker::new(binding) }
    }

    /// Handles `event` with what `input` holds. `window_at` is the window
    /// under the release position; `binding` is the context-menu binding of the
    /// configuration, taken up again when it changes.
    pub fn handle_event(
        &mut self,
        event: &WMEvent,
        input: &InputState,
        window_at: Option<WindowId>,
        binding: &ModMouseKeybind,
    ) -> (r: ContextMenuOutcome)
        ensures
            ({
                let (flags, step) = spec_keybind_step(
                    old(self).tracker.flags,
                    old(self).tracker.keybind@,
                    *event,
                    input.keys@,
                    input.buttons@,
                );
                &&& r.step == step
                &&& r.request == if is_click(old(self).tracker.flags, step) {
                    Some(ContextMenuRequest { position: step.event->Some_0->End_0, target_window: window_at })
                } else {
                    None
                }
                &&& r.handled == is_click(old(self).tracker.flags, step)
                &&& if step.event is None && *event is ConfigChanged {
                    &&& final(self).tracker.keybind@ == binding@
                    &&& final(self).tracker.flags == (TrackerFlags {
                        intercepting: false,
                        active: false,
                        moved: false,
                        started: false,
                    })
                } else {
                    &&& final(self).tracker.keybind@ == old(self).tracker.keybind@
                    &&& final(self).tracker.flags == flags
                }
            }),
    {
        let started_before = self.tracker.flags.started;
        let step = self.tracker.handle_event(event, input);
        match step.event {
            Some(KeybindEvent::End(pos)) => {
                if !started_before {
                    let request = ContextMenuRequest { position: pos, target_window: window_at };
                    return ContextMenuOutcome { request: Some(request), step, handled: true };
                }
                ContextMenuOutcome { request: None, step, handled: false }
            },
            Some(_) => ContextMenuOutcome { request: None, step, handled: false },
            None => {
                if let WMEvent::ConfigChanged = event {
                    self.tracker = ModMouseKeybindTracker::new(binding.clone());
                }
                ContextMenuOutcome { request: None, step, handled: false }
            },
        }
    }
}

} // verus!
