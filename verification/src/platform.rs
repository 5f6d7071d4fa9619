use vstd::prelude::*;
use crate::commands::CommandContext;
use crate::geometry::{Position, WindowId};
use crate::input::{KeyCode, MouseButton};

verus! {

/// A request to show the context menu at a position, possibly for a window.
#[derive(Debug, Clone, Copy, PartialEq, Eq, Structural)]
pub struct ContextMenuRequest {
    pub position: Position,
    pub target_window: Option<WindowId>,
}

/// An event delivered to the window manager by the platform layer.
#[derive(Debug)]
pub enum WMEvent {
    WindowOpened(WindowId),
    WindowShown(WindowId),
    WindowClosed(WindowId),
    WindowHidden(WindowId),
    /// The user started moving or resizing a window with the platform's own controls.
    WindowTransformStarted(WindowId),
    MouseDown(Position, MouseButton),
    MouseUp(Position, MouseButton),
    MouseMoved(Position),
    KeyDown(KeyCode),
    KeyUp(KeyCode),
    ConfigChanged,
    Shutdown,
    ShowContextMenu(ContextMenuRequest),
    CommandTriggered(String, Option<CommandContext>),
}

} // verus!

verus! {

/// The keys and mouse buttons currently held, as the platform layer reports them.
#[derive(Debug, Clone)]
pub struct InputState {
    pub keys: crate::input::Keys,
    pub buttons: crate::input::MouseButtons,
}

impl InputState {
    /// Nothing held.
    pub fn new() -> (s: InputState)
        ensures
            s.keys@.len() == 0,
            s.buttons@.len() == 0,
    {
        InputState { keys: crate::input::Keys::new(), buttons: crate::input::MouseButtons::new() }
    }

    /// Follows a key or button press or release; other events change nothing.
    pub fn handle_event(&mut self, event: &WMEvent)
        ensures
            match *event {
                WMEvent::KeyDown(k) => final(self).keys@ == crate::config::input_combo::seq_add(old(self).keys@, k)
                    && final(self).buttons@ == old(self).buttons@,
                WMEvent::KeyUp(k) => final(self).keys@ == crate::input::without(old(self).keys@, k)
                    && final(self).buttons@ == old(self).buttons@,
                WMEvent::MouseDown(_, b) => final(self).buttons@ == crate::config::input_combo::seq_add(old(self).buttons@, b)
                    && final(self).keys@ == old(self).keys@,
                WMEvent::MouseUp(_, b) => final(self).buttons@ == crate::input::without(old(self).buttons@, b)
                    && final(self).keys@ == old(self).keys@,
                _ => final(self).keys@ == old(self).keys@ && final(self).buttons@ == old(self).buttons@,
            },
    {
        match event {
            WMEvent::KeyDown(k) => self.keys.add(k),
            WMEvent::KeyUp(k) => self.keys.remove(k),
            WMEvent::MouseDown(_, b) => self.buttons.add(b),
            WMEvent::MouseUp(_, b) => self.buttons.remove(b),
            _ => {},
        }
    }

    pub fn key_pressed(&self, key: &KeyCode) -> (b: bool)
        ensures
            b == self.keys@.contains(*key),
    {
        self.keys.contains(key)
    }

    pub fn mouse_button_pressed(&self, button: &MouseButton) -> (b: bool)
        ensures
            b == self.buttons@.contains(*button),
    {
        self.buttons.contains(button)
    }

    /// Some combo of the binding is exactly what is held.
    pub fn binding_matches<T: crate::config::keybind::KeybindVariant>(
        &self,
        keybind: &crate::config::keybind::Keybind<T>,
    ) -> (b: bool)
        ensures
            b == spec_binding_matches(keybind@, self.keys@, self.buttons@),
    {
        keybind.matches(&self.keys, &self.buttons)
    }

    /// Some combo of the binding has exactly the buttons that are held.
    pub fn binding_matches_mouse<T: crate::config::keybind::KeybindVariant>(
        &self,
        keybind: &crate::config::keybind::Keybind<T>,
    ) -> (b: bool)
        ensures
            b == exists|i: int|
                0 <= i < keybind@.len() && crate::config::keybind::buttons_match(
                    #[trigger] keybind@[i],
                    self.buttons@,
                ),
    {
        keybind.matches_buttons(&self.buttons)
    }
}

/// Some combo of `kb` holds exactly `keys` and exactly `buttons`.
pub open spec fn spec_binding_matches(
    kb: Seq<crate::config::input_combo::ComboView>,
    keys: Seq<KeyCode>,
    buttons: Seq<MouseButton>,
) -> bool {
    exists|i: int|
        0 <= i < kb.len() && crate::config::keybind::keys_match(#[trigger] kb[i], keys)
            && crate::config::keybind::buttons_match(kb[i], buttons)
}

} // verus!
