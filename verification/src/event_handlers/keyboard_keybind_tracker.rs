use vstd::prelude::*;
use crate::config::keybind::KeyboardKeybind;
use crate::platform::{spec_binding_matches, InputState};

verus! {

/// Tracks a keyboard shortcut and detects the moment it becomes pressed.
#[derive(Debug)]
pub struct KeyboardKeybindTracker {
    pub keybind: KeyboardKeybind,
    pub was_pressed: bool,
}

impl KeyboardKeybindTracker {
    pub fn new(keybind: KeyboardKeybind) -> (t: KeyboardKeybindTracker)
        ensures
            t.keybind@ == keybind@,
            !t.was_pressed,
    {
        KeyboardKeybindTracker { keybind, was_pressed: false }
    }

    /// Whether the shortcut is held right now.
    pub fn is_pressed(&self, input: &InputState) -> (b: bool)
        ensures
            b == spec_binding_matches(self.keybind@, input.keys@, input.buttons@),
    {
        input.binding_matches(&self.keybind)
    }

    /// Whether the shortcut has just become held (it was not held at the previous check).
    pub fn was_just_pressed(&mut self, input: &InputState) -> (b: bool)
        ensures
            final(self).keybind@ == old(self).keybind@,
            final(self).was_pressed == spec_binding_matches(
                old(self).keybind@,
                input.keys@,
                input.buttons@,
            ),
            b == (final(self).was_pressed && !old(self).was_pressed),
            (final(self).was_pressed, b) == spec_check(
                old(self).was_pressed,
                spec_binding_matches(old(self).keybind@, input.keys@, input.buttons@),
            ),
    {
        let currently_pressed = self.is_pressed(input);
        let just_pressed = currently_pressed && !self.was_pressed;
        self.was_pressed = currently_pressed;
        just_pressed
    }

    /// Records whether the shortcut is held, without reporting anything.
    pub fn update(&mut self, input: &InputState)
        ensures
            final(self).keybind@ == old(self).keybind@,
            final(self).was_pressed == spec_binding_matches(
                old(self).keybind@,
                input.keys@,
                input.buttons@,
            ),
    {
        self.was_pressed = self.is_pressed(input);
    }
}


/// What `was_just_pressed` does: the tracker after the check and whether it
/// reported a press.
pub open spec fn spec_check(was_pressed: bool, held: bool) -> (bool, bool) {
    (held, held && !was_pressed)
}

/// A shortcut held down is reported once: checking again while it is still
/// held reports nothing, and it is reported again only after a check that
/// found it released.
pub proof fn lemma_press_reported_once(was_pressed: bool, held: bool)
    ensures
        ({
            let (w1, _) = spec_check(was_pressed, held);
            let (w2, fired2) = spec_check(w1, held);
            &&& held ==> !fired2
            &&& w2 == held
            &&& spec_check(spec_check(was_pressed, false).0, true).1
        }),
{
}

} // verus!
