use vstd::prelude::*;
use crate::config::input_combo::ComboView;
use crate::config::keybind::{modifiers_held, ModMouseKeybind};
use crate::geometry::Position;
use crate::input::{KeyCode, MouseButton, MouseButtons};
use crate::platform::{spec_binding_matches, InputState, WMEvent};

verus! {

/// What a modifier-and-mouse binding reports.
#[derive(Debug, Clone, Copy, PartialEq, Eq, Structural)]
pub enum KeybindEvent {
    /// The first mouse move after the binding became held.
    Start(Position),
    /// A later mouse move while it is held.
    Drag(Position),
    /// Every button was released.
    End(Position),
    /// Escape or another button interrupted it.
    Cancel,
}

/// What the tracker asks of the platform's mouse interception.
#[derive(Debug, Clone, Copy, PartialEq, Eq, Structural)]
pub enum InterceptionAction {
    /// Nothing to change.
    Keep,
    /// Ask to intercept the binding's buttons; report success with `interception_granted`.
    Request,
    /// Give the interception back.
    Release,
}

/// The outcome of one event.
#[derive(Debug, Clone, Copy, PartialEq, Eq, Structural)]
pub struct KeybindStep {
    pub event: Option<KeybindEvent>,
    pub interception: InterceptionAction,
    /// The binding's buttons should be marked as handled by the window manager.
    pub mark_handled: bool,
}

/// The state of the tracker besides its binding.
#[derive(Debug, Clone, Copy, PartialEq, Eq, Structural)]
pub struct TrackerFlags {
    /// Mouse input is being intercepted for this binding.
    pub intercepting: bool,
    /// The binding became held with a mouse press and has not been released.
    pub active: bool,
    /// The mouse moved while active.
    pub moved: bool,
    /// `Start` has been reported for the current activation.
    pub started: bool,
}

/// The button `b` appears in some combo of `combos`.
pub open spec fn named_button(combos: Seq<ComboView>, b: MouseButton) -> bool {
    exists|i: int| 0 <= i < combos.len() && (#[trigger] combos[i]).1.contains(b)
}

/// Which interception change the held inputs call for, and the new `intercepting` flag.
pub open spec fn interception_change(
    f: TrackerFlags,
    kb: Seq<ComboView>,
    input_keys: Seq<KeyCode>,
    input_buttons: Seq<MouseButton>,
) -> (InterceptionAction, bool) {
    let escape = input_keys.contains(KeyCode::Escape);
    let held = exists|i: int| 0 <= i < kb.len() && modifiers_held(#[trigger] kb[i], input_keys, input_buttons);
    let should = held && !escape;
    if should && !f.intercepting {
        (InterceptionAction::Request, f.intercepting)
    } else if !should && f.intercepting {
        (InterceptionAction::Release, false)
    } else {
        (InterceptionAction::Keep, f.intercepting)
    }
}

/// The activation change on a mouse press (`down`) or release at `pos`.
pub open spec fn activation_change(
    f: TrackerFlags,
    kb: Seq<ComboView>,
    down: bool,
    pos: Position,
    input_keys: Seq<KeyCode>,
    input_buttons: Seq<MouseButton>,
) -> (TrackerFlags, Option<KeybindEvent>) {
    let active = spec_binding_matches(kb, input_keys, input_buttons);
    let any_down = input_buttons.contains(MouseButton::Left) || input_buttons.contains(
        MouseButton::Middle,
    ) || input_buttons.contains(MouseButton::Right);
    if active && !f.active && down {
        (TrackerFlags { active: true, ..f }, None)
    } else if f.active && !active && down {
        (TrackerFlags { active: false, started: false, ..f }, Some(KeybindEvent::Cancel))
    } else if f.active && !active && !any_down {
        (TrackerFlags { active: false, started: false, ..f }, Some(KeybindEvent::End(pos)))
    } else {
        (f, None)
    }
}

/// The flags after `event` and the outcome reported for it.
pub open spec fn spec_keybind_step(
    f: TrackerFlags,
    kb: Seq<ComboView>,
    event: WMEvent,
    input_keys: Seq<KeyCode>,
    input_buttons: Seq<MouseButton>,
) -> (TrackerFlags, KeybindStep) {
    let (action, intercepting) = interception_change(f, kb, input_keys, input_buttons);
    let g = TrackerFlags { intercepting, ..f };
    match event {
        WMEvent::KeyDown(_) | WMEvent::KeyUp(_) => {
            if input_keys.contains(KeyCode::Escape) && g.active {
                (
                    TrackerFlags { active: false, started: false, ..g },
                    KeybindStep {
                        event: Some(KeybindEvent::Cancel),
                        interception: action,
                        mark_handled: false,
                    },
                )
            } else {
                (g, KeybindStep { event: None, interception: action, mark_handled: false })
            }
        },
        WMEvent::MouseDown(pos, _) => {
            let (h, e) = activation_change(g, kb, true, pos, input_keys, input_buttons);
            (h, KeybindStep { event: e, interception: action, mark_handled: false })
        },
        WMEvent::MouseUp(pos, _) => {
            let (h, e) = activation_change(g, kb, false, pos, input_keys, input_buttons);
            (h, KeybindStep { event: e, interception: action, mark_handled: false })
        },
        WMEvent::MouseMoved(pos) => {
            if !f.active {
                (f, KeybindStep { event: None, interception: InterceptionAction::Keep, mark_handled: false })
            } else if !f.started {
                (
                    TrackerFlags { moved: true, started: true, ..f },
                    KeybindStep {
                        event: Some(KeybindEvent::Start(pos)),
                        interception: InterceptionAction::Keep,
                        mark_handled: true,
                    },
                )
            } else {
                (
                    TrackerFlags { moved: true, ..f },
                    KeybindStep {
                        event: Some(KeybindEvent::Drag(pos)),
                        interception: InterceptionAction::Keep,
                        mark_handled: false,
                    },
                )
            }
        },
        _ => (f, KeybindStep { event: None, interception: InterceptionAction::Keep, mark_handled: false }),
    }
}

proof fn lemma_push_contains<T>(s: Seq<T>, x: T, b: T)
    ensures
        s.push(x).contains(b) <==> (s.contains(b) || x == b),
{
    if s.contains(b) {
        let k = choose|k: int| 0 <= k < s.len() && s[k] == b;
        assert(s.push(x)[k] == b);
    }
    if x == b {
        assert(s.push(x)[s.len() as int] == b);
    }
    if s.push(x).contains(b) {
        let k = choose|k: int| 0 <= k < s.len() + 1 && s.push(x)[k] == b;
        if k < s.len() {
            assert(s[k] == b);
        }
    }
}

/// `set` with every button of `src` added.
fn add_all(set: MouseButtons, src: &MouseButtons) -> (r: MouseButtons)
    ensures
        forall|b: MouseButton| r@.contains(b) <==> (set@.contains(b) || src@.contains(b)),
{
    let buttons = src.as_slice();
    let ghost before = set@;
    let mut r = set;
    for j in 0..buttons.len()
        invariant
            buttons@ == src@,
            forall|b: MouseButton|
                #[trigger] r@.contains(b) <==> (before.contains(b) || buttons@.subrange(0, j as int).contains(b)),
    {
        let ghost prev = r@;
        let x = buttons[j];
        r.add(&x);
        assert(buttons@.subrange(0, j + 1) == buttons@.subrange(0, j as int).push(x));
        assert forall|b: MouseButton|
            r@.contains(b) <==> (before.contains(b) || buttons@.subrange(0, j + 1).contains(b)) by {
            lemma_push_contains(buttons@.subrange(0, j as int), x, b);
            lemma_push_contains(prev, x, b);
            assert(r@.contains(b) <==> (prev.contains(b) || x == b));
            assert(prev.contains(b) <==> (before.contains(b) || buttons@.subrange(0, j as int).contains(b)));
            assert(buttons@.subrange(0, j + 1).contains(b) <==> (buttons@.subrange(0, j as int).contains(b) || x == b));
        }
    }
    assert(buttons@.subrange(0, buttons@.len() as int) == buttons@);
    r
}

/// Follows a binding made of modifiers and mouse buttons (such as `ctrl+lmb`):
/// asks for mouse interception while its modifiers are held, becomes active when
/// a press completes the binding, and reports the drag that follows.
#[derive(Debug)]
pub struct ModMouseKeybindTracker {
    pub flags: TrackerFlags,
    pub keybind: ModMouseKeybind,
    pub included_buttons: MouseButtons,
}

impl ModMouseKeybindTracker {
    /// A tracker at rest for `keybind`; its buttons are those that any combo names.
    pub fn new(keybind: ModMouseKeybind) -> (t: ModMouseKeybindTracker)
        ensures
            t.keybind@ == keybind@,
            t.flags == (TrackerFlags { intercepting: false, active: false, moved: false, started: false }),
            forall|b: MouseButton| t.included_buttons@.contains(b) <==> named_button(keybind@, b),
    {
        let mut included = MouseButtons::new();
        let combos = keybind.combos();
        for i in 0..combos.len()
            invariant
                combos@.map_values(|x: crate::config::input_combo::InputCombo| x@) == keybind@,
                forall|b: MouseButton|
                    included@.contains(b) <==> named_button(keybind@.subrange(0, i as int), b),
        {
            assert(keybind@[i as int] == combos@[i as int]@);
            let ghost before = included@;
            included = add_all(included, combos[i].buttons());
            assert forall|b: MouseButton|
                included@.contains(b) <==> named_button(keybind@.subrange(0, i + 1), b) by {
                let s = keybind@.subrange(0, i + 1);
                if named_button(keybind@.subrange(0, i as int), b) {
                    let k = choose|k: int| 0 <= k < i && (#[trigger] keybind@.subrange(0, i as int)[k]).1.contains(b);
                    assert(s[k] == keybind@.subrange(0, i as int)[k]);
                }
                if keybind@[i as int].1.contains(b) {
                    assert(s[i as int] == keybind@[i as int]);
                }
                if named_button(s, b) {
                    let k = choose|k: int| 0 <= k < i + 1 && (#[trigger] s[k]).1.contains(b);
                    if k < i {
                        assert(keybind@.subrange(0, i as int)[k] == s[k]);
                    }
                }
            }
        }
        assert(keybind@.subrange(0, combos@.len() as int) == keybind@);
        ModMouseKeybindTracker {
            flags: TrackerFlags { intercepting: false, active: false, moved: false, started: false },
            keybind,
            included_buttons: included,
        }
    }

    /// Feeds one event, with the inputs held after it, and returns what it produces.
    pub fn handle_event(&mut self, event: &WMEvent, input: &InputState) -> (r: KeybindStep)
        ensures
            final(self).keybind@ == old(self).keybind@,
            final(self).included_buttons@ == old(self).included_buttons@,
            (final(self).flags, r) == spec_keybind_step(
                old(self).flags,
                old(self).keybind@,
                *event,
                input.keys@,
                input.buttons@,
            ),
    {
        match event {
            WMEvent::KeyDown(_) | WMEvent::KeyUp(_) => {
                let action = self.update_interception_state(input);
                let escape_pressed = input.key_pressed(&KeyCode::Escape);
                if escape_pressed && self.flags.active {
                    self.flags.active = false;
                    self.flags.started = false;
                    return KeybindStep {
                        event: Some(KeybindEvent::Cancel),
                        interception: action,
                        mark_handled: false,
                    };
                }
                KeybindStep { event: None, interception: action, mark_handled: false }
            },
            WMEvent::MouseDown(pos, _) => {
                let action = self.update_interception_state(input);
                let e = self.update_keybind_state(true, pos, input);
                KeybindStep { event: e, interception: action, mark_handled: false }
            },
            WMEvent::MouseUp(pos, _) => {
                let action = self.update_interception_state(input);
                let e = self.update_keybind_state(false, pos, input);
                KeybindStep { event: e, interception: action, mark_handled: false }
            },
            WMEvent::MouseMoved(pos) => {
                if !self.flags.active {
                    KeybindStep { event: None, interception: InterceptionAction::Keep, mark_handled: false }
                } else {
                    self.flags.moved = true;
                    if !self.flags.started {
                        self.flags.started = true;
                        KeybindStep {
                            event: Some(KeybindEvent::Start(*pos)),
                            interception: InterceptionAction::Keep,
                            mark_handled: true,
                        }
                    } else {
                        KeybindStep {
                            event: Some(KeybindEvent::Drag(*pos)),
                            interception: InterceptionAction::Keep,
                            mark_handled: false,
                        }
                    }
                }
            },
            _ => KeybindStep { event: None, interception: InterceptionAction::Keep, mark_handled: false },
        }
    }

    /// Records that the interception asked for was granted.
    pub fn interception_granted(&mut self)
        ensures
            final(self).keybind@ == old(self).keybind@,
            final(self).included_buttons@ == old(self).included_buttons@,
            final(self).flags == (TrackerFlags { intercepting: true, ..old(self).flags }),
    {
        self.flags.intercepting = true;
    }

    fn update_interception_state(&mut self, input: &InputState) -> (a: InterceptionAction)
        ensures
            final(self).keybind@ == old(self).keybind@,
            final(self).included_buttons@ == old(self).included_buttons@,
            (a, final(self).flags.intercepting) == interception_change(
                old(self).flags,
                old(self).keybind@,
                input.keys@,
                input.buttons@,
            ),
            final(self).flags == (TrackerFlags {
                intercepting: final(self).flags.intercepting,
                ..old(self).flags
            }),
    {
        let escape_pressed = input.key_pressed(&KeyCode::Escape);
        let should_intercept = self.keybind.modifiers_match(&input.keys, &input.buttons)
            && !escape_pressed;
        if should_intercept && !self.flags.intercepting {
            InterceptionAction::Request
        } else if !should_intercept && self.flags.intercepting {
            self.flags.intercepting = false;
            InterceptionAction::Release
        } else {
            InterceptionAction::Keep
        }
    }

    fn update_keybind_state(&mut self, down: bool, position: &Position, input: &InputState) -> (e:
        Option<KeybindEvent>)
        ensures
            final(self).keybind@ == old(self).keybind@,
            final(self).included_buttons@ == old(self).included_buttons@,
            (final(self).flags, e) == activation_change(
                old(self).flags,
                old(self).keybind@,
                down,
                *position,
                input.keys@,
                input.buttons@,
            ),
    {
        let active = input.binding_matches(&self.keybind);
        let any_mouse_down = input.mouse_button_pressed(&MouseButton::Left)
            || input.mouse_button_pressed(&MouseButton::Middle) || input.mouse_button_pressed(
            &MouseButton::Right,
        );
        if active && !self.flags.active && down {
            self.flags.active = true;
            None
        } else if self.flags.active && !active && down {
            self.flags.active = false;
            self.flags.started = false;
            Some(KeybindEvent::Cancel)
        } else if self.flags.active && !active && !any_mouse_down {
            self.flags.active = false;
            self.flags.started = false;
            Some(KeybindEvent::End(*position))
        } else {
            None
        }
    }

    /// The binding's modifiers are held (mouse input is being intercepted for it).
    pub fn mod_held(&self) -> (b: bool)
        ensures
            b == self.flags.intercepting,
    {
        self.flags.intercepting
    }
}


/// A binding reports `Start` at most once per activation: while it is active
/// and started, a mouse move is reported as `Drag`.
pub proof fn lemma_start_reported_once(f: TrackerFlags, kb: Seq<ComboView>, pos: Position, keys: Seq<KeyCode>, buttons: Seq<MouseButton>)
    requires
        f.active,
    ensures
        ({
            let (f2, step) = spec_keybind_step(f, kb, WMEvent::MouseMoved(pos), keys, buttons);
            &&& f2.started
            &&& f2.active
            &&& step.event == if f.started { Some(KeybindEvent::Drag(pos)) } else { Some(KeybindEvent::Start(pos)) }
        }),
{
}

/// A binding that is not active reports nothing for a mouse move.
pub proof fn lemma_inactive_moves_are_silent(f: TrackerFlags, kb: Seq<ComboView>, pos: Position, keys: Seq<KeyCode>, buttons: Seq<MouseButton>)
    requires
        !f.active,
    ensures
        spec_keybind_step(f, kb, WMEvent::MouseMoved(pos), keys, buttons) == (f, KeybindStep {
            event: None,
            interception: InterceptionAction::Keep,
            mark_handled: false,
        }),
{
}

/// Every cancel or end leaves the binding inactive and not started.
pub proof fn lemma_end_and_cancel_deactivate(f: TrackerFlags, kb: Seq<ComboView>, event: WMEvent, keys: Seq<KeyCode>, buttons: Seq<MouseButton>)
    ensures
        ({
            let (f2, step) = spec_keybind_step(f, kb, event, keys, buttons);
            (step.event matches Some(KeybindEvent::End(_)) || step.event == Some(KeybindEvent::Cancel))
                ==> !f2.active && !f2.started && f.active
        }),
{
}

} // verus!
