use vstd::prelude::*;
use crate::input::{KeyCode, Keys, MouseButton, MouseButtons};
use crate::text::{ascii_lower_code, chars_of, join, lower_equals, lower_equals_str, split_on, trim, trimmed};

verus! {

/// A key or a mouse button that a combo requires besides its main input.
#[derive(Debug, Clone, Copy, PartialEq, Eq, Structural)]
pub enum Modifier {
    Key(KeyCode),
    MouseButton(MouseButton),
}

/// What one `+`-separated part of a combo string adds to the combo.
#[derive(Debug, Clone, Copy, PartialEq, Eq, Structural)]
pub enum ComboToken {
    Key(KeyCode),
    Button(MouseButton),
    Ignored,
}

/// The key named by a (trimmed) part, matched without regard to ASCII case.
pub open spec fn spec_parse_key(t: Seq<char>) -> Option<KeyCode> {
    if lower_equals(t, "a"@) {
        Some(KeyCode::KeyA)
    } else if lower_equals(t, "b"@) {
        Some(KeyCode::KeyB)
    } else if lower_equals(t, "c"@) {
        Some(KeyCode::KeyC)
    } else if lower_equals(t, "d"@) {
        Some(KeyCode::KeyD)
    } else if lower_equals(t, "e"@) {
        Some(KeyCode::KeyE)
    } else if lower_equals(t, "f"@) {
        Some(KeyCode::KeyF)
    } else if lower_equals(t, "g"@) {
        Some(KeyCode::KeyG)
    } else if lower_equals(t, "h"@) {
        Some(KeyCode::KeyH)
    } else if lower_equals(t, "i"@) {
        Some(KeyCode::KeyI)
    } else if lower_equals(t, "j"@) {
        Some(KeyCode::KeyJ)
    } else if lower_equals(t, "k"@) {
        Some(KeyCode::KeyK)
    } else if lower_equals(t, "l"@) {
        Some(KeyCode::KeyL)
    } else if lower_equals(t, "m"@) {
        Some(KeyCode::KeyM)
    } else if lower_equals(t, "n"@) {
        Some(KeyCode::KeyN)
    } else if lower_equals(t, "o"@) {
        Some(KeyCode::KeyO)
    } else if lower_equals(t, "p"@) {
        Some(KeyCode::KeyP)
    } else if lower_equals(t, "q"@) {
        Some(KeyCode::KeyQ)
    } else if lower_equals(t, "r"@) {
        Some(KeyCode::KeyR)
    } else if lower_equals(t, "s"@) {
        Some(KeyCode::KeyS)
    } else if lower_equals(t, "t"@) {
        Some(KeyCode::KeyT)
    } else if lower_equals(t, "u"@) {
        Some(KeyCode::KeyU)
    } else if lower_equals(t, "v"@) {
        Some(KeyCode::KeyV)
    } else if lower_equals(t, "w"@) {
        Some(KeyCode::KeyW)
    } else if lower_equals(t, "x"@) {
        Some(KeyCode::KeyX)
    } else if lower_equals(t, "y"@) {
        Some(KeyCode::KeyY)
    } else if lower_equals(t, "z"@) {
        Some(KeyCode::KeyZ)
    } else if lower_equals(t, "0"@) {
        Some(KeyCode::Digit0)
    } else if lower_equals(t, "1"@) {
        Some(KeyCode::Digit1)
    } else if lower_equals(t, "2"@) {
        Some(KeyCode::Digit2)
    } else if lower_equals(t, "3"@) {
        Some(KeyCode::Digit3)
    } else if lower_equals(t, "4"@) {
        Some(KeyCode::Digit4)
    } else if lower_equals(t, "5"@) {
        Some(KeyCode::Digit5)
    } else if lower_equals(t, "6"@) {
        Some(KeyCode::Digit6)
    } else if lower_equals(t, "7"@) {
        Some(KeyCode::Digit7)
    } else if lower_equals(t, "8"@) {
        Some(KeyCode::Digit8)
    } else if lower_equals(t, "9"@) {
        Some(KeyCode::Digit9)
    } else if lower_equals(t, "space"@) {
        Some(KeyCode::Space)
    } else if lower_equals(t, "enter"@) || lower_equals(t, "return"@) {
        Some(KeyCode::Enter)
    } else if lower_equals(t, "tab"@) {
        Some(KeyCode::Tab)
    } else if lower_equals(t, "escape"@) || lower_equals(t, "esc"@) {
        Some(KeyCode::Escape)
    } else if lower_equals(t, "backspace"@) {
        Some(KeyCode::Backspace)
    } else if lower_equals(t, "delete"@) {
        Some(KeyCode::Delete)
    } else if lower_equals(t, "up"@) || lower_equals(t, "arrowup"@) {
        Some(KeyCode::ArrowUp)
    } else if lower_equals(t, "down"@) || lower_equals(t, "arrowdown"@) {
        Some(KeyCode::ArrowDown)
    } else if lower_equals(t, "left"@) || lower_equals(t, "arrowleft"@) {
        Some(KeyCode::ArrowLeft)
    } else if lower_equals(t, "right"@) || lower_equals(t, "arrowright"@) {
        Some(KeyCode::ArrowRight)
    } else if lower_equals(t, "f1"@) {
        Some(KeyCode::F1)
    } else if lower_equals(t, "f2"@) {
        Some(KeyCode::F2)
    } else if lower_equals(t, "f3"@) {
        Some(KeyCode::F3)
    } else if lower_equals(t, "f4"@) {
        Some(KeyCode::F4)
    } else if lower_equals(t, "f5"@) {
        Some(KeyCode::F5)
    } else if lower_equals(t, "f6"@) {
        Some(KeyCode::F6)
    } else if lower_equals(t, "f7"@) {
        Some(KeyCode::F7)
    } else if lower_equals(t, "f8"@) {
        Some(KeyCode::F8)
    } else if lower_equals(t, "f9"@) {
        Some(KeyCode::F9)
    } else if lower_equals(t, "f10"@) {
        Some(KeyCode::F10)
    } else if lower_equals(t, "f11"@) {
        Some(KeyCode::F11)
    } else if lower_equals(t, "f12"@) {
        Some(KeyCode::F12)
    } else {
        None
    }
}

/// The name that a combo string uses for a key that is not a modifier.
pub open spec fn spec_key_name(key: KeyCode) -> Option<Seq<char>> {
    match key {
        KeyCode::KeyA => Some("a"@),
        KeyCode::KeyB => Some("b"@),
        KeyCode::KeyC => Some("c"@),
        KeyCode::KeyD => Some("d"@),
        KeyCode::KeyE => Some("e"@),
        KeyCode::KeyF => Some("f"@),
        KeyCode::KeyG => Some("g"@),
        KeyCode::KeyH => Some("h"@),
        KeyCode::KeyI => Some("i"@),
        KeyCode::KeyJ => Some("j"@),
        KeyCode::KeyK => Some("k"@),
        KeyCode::KeyL => Some("l"@),
        KeyCode::KeyM => Some("m"@),
        KeyCode::KeyN => Some("n"@),
        KeyCode::KeyO => Some("o"@),
        KeyCode::KeyP => Some("p"@),
        KeyCode::KeyQ => Some("q"@),
        KeyCode::KeyR => Some("r"@),
        KeyCode::KeyS => Some("s"@),
        KeyCode::KeyT => Some("t"@),
        KeyCode::KeyU => Some("u"@),
        KeyCode::KeyV => Some("v"@),
        KeyCode::KeyW => Some("w"@),
        KeyCode::KeyX => Some("x"@),
        KeyCode::KeyY => Some("y"@),
        KeyCode::KeyZ => Some("z"@),
        KeyCode::Digit0 => Some("0"@),
        KeyCode::Digit1 => Some("1"@),
        KeyCode::Digit2 => Some("2"@),
        KeyCode::Digit3 => Some("3"@),
        KeyCode::Digit4 => Some("4"@),
        KeyCode::Digit5 => Some("5"@),
        KeyCode::Digit6 => Some("6"@),
        KeyCode::Digit7 => Some("7"@),
        KeyCode::Digit8 => Some("8"@),
        KeyCode::Digit9 => Some("9"@),
        KeyCode::Space => Some("space"@),
        KeyCode::Enter => Some("enter"@),
        KeyCode::Tab => Some("tab"@),
        KeyCode::Escape => Some("escape"@),
        KeyCode::Backspace => Some("backspace"@),
        KeyCode::Delete => Some("delete"@),
        KeyCode::ArrowUp => Some("up"@),
        KeyCode::ArrowDown => Some("down"@),
        KeyCode::ArrowLeft => Some("left"@),
        KeyCode::ArrowRight => Some("right"@),
        KeyCode::F1 => Some("f1"@),
        KeyCode::F2 => Some("f2"@),
        KeyCode::F3 => Some("f3"@),
        KeyCode::F4 => Some("f4"@),
        KeyCode::F5 => Some("f5"@),
        KeyCode::F6 => Some("f6"@),
        KeyCode::F7 => Some("f7"@),
        KeyCode::F8 => Some("f8"@),
        KeyCode::F9 => Some("f9"@),
        KeyCode::F10 => Some("f10"@),
        KeyCode::F11 => Some("f11"@),
        KeyCode::F12 => Some("f12"@),
        _ => None,
    }
}

/// The meaning of one part of a combo string: the part is trimmed and
/// compared without regard to ASCII case; unknown words are ignored.
pub open spec fn spec_token(part: Seq<char>) -> ComboToken {
    let t = trim(part);
    if lower_equals(t, "ctrl"@) {
        ComboToken::Key(KeyCode::ControlLeft)
    } else if lower_equals(t, "shift"@) {
        ComboToken::Key(KeyCode::ShiftLeft)
    } else if lower_equals(t, "alt"@) {
        ComboToken::Key(KeyCode::AltLeft)
    } else if lower_equals(t, "super"@) || lower_equals(t, "win"@) || lower_equals(t, "cmd"@) {
        ComboToken::Key(KeyCode::SuperLeft)
    } else if lower_equals(t, "lmb"@) {
        ComboToken::Button(MouseButton::Left)
    } else if lower_equals(t, "rmb"@) {
        ComboToken::Button(MouseButton::Right)
    } else if lower_equals(t, "mmb"@) {
        ComboToken::Button(MouseButton::Middle)
    } else if lower_equals(t, "bmb"@) || lower_equals(t, "button4"@) || lower_equals(t, "back"@) {
        ComboToken::Button(MouseButton::Button4)
    } else if lower_equals(t, "fmb"@) || lower_equals(t, "button5"@) || lower_equals(t, "forward"@) {
        ComboToken::Button(MouseButton::Button5)
    } else {
        match spec_parse_key(t) {
            Some(k) => ComboToken::Key(k),
            None => ComboToken::Ignored,
        }
    }
}

/// `s` with `x` added at the end unless it is already there.
pub open spec fn seq_add<T>(s: Seq<T>, x: T) -> Seq<T> {
    if s.contains(x) {
        s
    } else {
        s.push(x)
    }
}

/// The keys and buttons of a combo, each in the order in which it was first named.
pub type ComboView = (Seq<KeyCode>, Seq<MouseButton>);

/// The combo `c` after one more part.
pub open spec fn apply_part(c: ComboView, part: Seq<char>) -> ComboView {
    match spec_token(part) {
        ComboToken::Key(k) => (seq_add(c.0, k), c.1),
        ComboToken::Button(b) => (c.0, seq_add(c.1, b)),
        ComboToken::Ignored => c,
    }
}

/// The combo that the parts give, read from first to last.
pub open spec fn apply_parts(parts: Seq<Seq<char>>) -> ComboView
    decreases parts.len(),
{
    if parts.len() == 0 {
        (Seq::empty(), Seq::empty())
    } else {
        apply_part(apply_parts(parts.drop_last()), parts.last())
    }
}

/// The combo that a combo string such as `"ctrl+shift+lmb"` describes.
pub open spec fn spec_parse(s: Seq<char>) -> ComboView {
    apply_parts(split_on(s, '+'))
}

pub open spec fn is_modifier_key(k: KeyCode) -> bool {
    k == KeyCode::ControlLeft || k == KeyCode::ControlRight || k == KeyCode::ShiftLeft || k
        == KeyCode::ShiftRight || k == KeyCode::AltLeft || k == KeyCode::AltRight || k
        == KeyCode::SuperLeft || k == KeyCode::SuperRight
}

pub open spec fn is_modifier_button(b: MouseButton) -> bool {
    b == MouseButton::Button4 || b == MouseButton::Button5
}

/// The modifier keys of `keys`, in order.
pub open spec fn key_modifiers(keys: Seq<KeyCode>) -> Seq<Modifier>
    decreases keys.len(),
{
    if keys.len() == 0 {
        Seq::empty()
    } else if is_modifier_key(keys.last()) {
        key_modifiers(keys.drop_last()).push(Modifier::Key(keys.last()))
    } else {
        key_modifiers(keys.drop_last())
    }
}

/// The modifier buttons of `buttons`, in order.
pub open spec fn button_modifiers(buttons: Seq<MouseButton>) -> Seq<Modifier>
    decreases buttons.len(),
{
    if buttons.len() == 0 {
        Seq::empty()
    } else if is_modifier_button(buttons.last()) {
        button_modifiers(buttons.drop_last()).push(Modifier::MouseButton(buttons.last()))
    } else {
        button_modifiers(buttons.drop_last())
    }
}

/// `s` with `extra` appended when `cond` holds.
pub open spec fn push_if(s: Seq<Seq<char>>, cond: bool, extra: Seq<char>) -> Seq<Seq<char>> {
    if cond {
        s.push(extra)
    } else {
        s
    }
}

/// The names of the keys of `keys` other than the four left-hand modifiers, in order.
pub open spec fn plain_key_names(keys: Seq<KeyCode>) -> Seq<Seq<char>>
    decreases keys.len(),
{
    if keys.len() == 0 {
        Seq::empty()
    } else {
        let k = keys.last();
        let rest = plain_key_names(keys.drop_last());
        if k != KeyCode::ControlLeft && k != KeyCode::ShiftLeft && k != KeyCode::AltLeft && k
            != KeyCode::SuperLeft && spec_key_name(k) is Some {
            rest.push(spec_key_name(k)->Some_0)
        } else {
            rest
        }
    }
}

/// The words of the canonical string of a combo: modifiers first
/// (`ctrl`, `shift`, `alt`, `cmd`), then the other keys, then the buttons.
pub open spec fn combo_words(c: ComboView) -> Seq<Seq<char>> {
    let m = push_if(
        push_if(
            push_if(
                push_if(Seq::empty(), c.0.contains(KeyCode::ControlLeft), "ctrl"@),
                c.0.contains(KeyCode::ShiftLeft),
                "shift"@,
            ),
            c.0.contains(KeyCode::AltLeft),
            "alt"@,
        ),
        c.0.contains(KeyCode::SuperLeft),
        "cmd"@,
    );
    let k = m + plain_key_names(c.0);
    push_if(
        push_if(
            push_if(
                push_if(
                    push_if(k, c.1.contains(MouseButton::Left), "lmb"@),
                    c.1.contains(MouseButton::Right),
                    "rmb"@,
                ),
                c.1.contains(MouseButton::Middle),
                "mmb"@,
            ),
            c.1.contains(MouseButton::Button4),
            "back"@,
        ),
        c.1.contains(MouseButton::Button5),
        "forward"@,
    )
}

/// Joins the words with `+`.
pub fn join_plus(words: &Vec<&str>) -> (s: String)
    ensures
        s@ == join(words@.map_values(|w: &str| w@), "+"@),
{
    let ghost views = words@.map_values(|w: &str| w@);
    let mut out = String::new();
    for i in 0..words.len()
        invariant
            views == words@.map_values(|w: &str| w@),
            out@ == join(views.subrange(0, i as int), "+"@),
    {
        let ghost prev = views.subrange(0, i as int);
        assert(views.subrange(0, i + 1).drop_last() == prev);
        assert(views.subrange(0, i + 1).last() == words@[i as int]@);
        if i > 0 {
            out.append("+");
        }
        out.append(words[i]);
        proof {
            if i == 0 {
                assert(prev.len() == 0);
                assert(views.subrange(0, 1).len() == 1);
                assert(out@ == Seq::<char>::empty() + words@[0]@);
                assert(Seq::<char>::empty() + words@[0]@ == words@[0]@);
            }
        }
    }
    assert(views.subrange(0, words@.len() as int) == views);
    out
}

/// A combination of keys and mouse buttons that must be held together,
/// written in configuration files as words joined by `+` (such as `ctrl+shift+lmb`).
#[derive(Debug)]
pub struct InputCombo {
    keys: Keys,
    buttons: MouseButtons,
}

impl View for InputCombo {
    type V = ComboView;

    closed spec fn view(&self) -> ComboView {
        (self.keys@, self.buttons@)
    }
}

impl Clone for InputCombo {
    fn clone(&self) -> (c: Self)
        ensures
            c@ == self@,
    {
        InputCombo { keys: self.keys.clone(), buttons: self.buttons.clone() }
    }
}

impl Default for InputCombo {
    fn default() -> (c: Self)
        ensures
            c@ == (Seq::<KeyCode>::empty(), Seq::<MouseButton>::empty()),
    {
        InputCombo { keys: Keys::new(), buttons: MouseButtons::new() }
    }
}

/// Whether `t` holds an upper-case ASCII letter.
fn has_upper(t: &[char]) -> (b: bool)
    ensures
        b == !no_upper(t@),
{
    let n = t.len();
    let mut i: usize = 0;
    assert(t@.skip(0) =~= t@);
    while i < n
        invariant
            n == t@.len(),
            i <= n,
            no_upper(t@) == no_upper(t@.skip(i as int)),
        decreases n - i,
    {
        assert(t@.skip(i as int).drop_first() =~= t@.skip(i + 1));
        assert(t@.skip(i as int)[0] == t@[i as int]);
        if 'A' <= t[i] && t[i] <= 'Z' {
            return true;
        }
        i = i + 1;
    }
    assert(t@.skip(n as int).len() == 0);
    false
}

/// The key named by `t` (already trimmed and lower-cased): key names are
/// written in lower case, so a name holding an upper-case letter names no key.
pub fn parse_key(t: &[char]) -> (k: Option<KeyCode>)
    ensures
        k == (if no_upper(t@) {
            spec_parse_key(t@)
        } else {
            None
        }),
{
    if has_upper(t) {
        None
    } else {
        parse_key_any_case(t)
    }
}

/// The key named by `t` (already trimmed), ignoring ASCII case.
fn parse_key_any_case(t: &[char]) -> (k: Option<KeyCode>)
    ensures
        k == spec_parse_key(t@),
{
        if lower_equals_str(t, "a") {
            Some(KeyCode::KeyA)
        } else if lower_equals_str(t, "b") {
            Some(KeyCode::KeyB)
        } else if lower_equals_str(t, "c") {
            Some(KeyCode::KeyC)
        } else if lower_equals_str(t, "d") {
            Some(KeyCode::KeyD)
        } else if lower_equals_str(t, "e") {
            Some(KeyCode::KeyE)
        } else if lower_equals_str(t, "f") {
            Some(KeyCode::KeyF)
        } else if lower_equals_str(t, "g") {
            Some(KeyCode::KeyG)
        } else if lower_equals_str(t, "h") {
            Some(KeyCode::KeyH)
        } else if lower_equals_str(t, "i") {
            Some(KeyCode::KeyI)
        } else if lower_equals_str(t, "j") {
            Some(KeyCode::KeyJ)
        } else if lower_equals_str(t, "k") {
            Some(KeyCode::KeyK)
        } else if lower_equals_str(t, "l") {
            Some(KeyCode::KeyL)
        } else if lower_equals_str(t, "m") {
            Some(KeyCode::KeyM)
        } else if lower_equals_str(t, "n") {
            Some(KeyCode::KeyN)
        } else if lower_equals_str(t, "o") {
            Some(KeyCode::KeyO)
        } else if lower_equals_str(t, "p") {
            Some(KeyCode::KeyP)
        } else if lower_equals_str(t, "q") {
            Some(KeyCode::KeyQ)
        } else if lower_equals_str(t, "r") {
            Some(KeyCode::KeyR)
        } else if lower_equals_str(t, "s") {
            Some(KeyCode::KeyS)
        } else if lower_equals_str(t, "t") {
            Some(KeyCode::KeyT)
        } else if lower_equals_str(t, "u") {
            Some(KeyCode::KeyU)
        } else if lower_equals_str(t, "v") {
            Some(KeyCode::KeyV)
        } else if lower_equals_str(t, "w") {
            Some(KeyCode::KeyW)
        } else if lower_equals_str(t, "x") {
            Some(KeyCode::KeyX)
        } else if lower_equals_str(t, "y") {
            Some(KeyCode::KeyY)
        } else if lower_equals_str(t, "z") {
            Some(KeyCode::KeyZ)
        } else if lower_equals_str(t, "0") {
            Some(KeyCode::Digit0)
        } else if lower_equals_str(t, "1") {
            Some(KeyCode::Digit1)
        } else if lower_equals_str(t, "2") {
            Some(KeyCode::Digit2)
        } else if lower_equals_str(t, "3") {
            Some(KeyCode::Digit3)
        } else if lower_equals_str(t, "4") {
            Some(KeyCode::Digit4)
        } else if lower_equals_str(t, "5") {
            Some(KeyCode::Digit5)
        } else if lower_equals_str(t, "6") {
            Some(KeyCode::Digit6)
        } else if lower_equals_str(t, "7") {
            Some(KeyCode::Digit7)
        } else if lower_equals_str(t, "8") {
            Some(KeyCode::Digit8)
        } else if lower_equals_str(t, "9") {
            Some(KeyCode::Digit9)
        } else if lower_equals_str(t, "space") {
            Some(KeyCode::Space)
        } else if lower_equals_str(t, "enter") || lower_equals_str(t, "return") {
            Some(KeyCode::Enter)
        } else if lower_equals_str(t, "tab") {
            Some(KeyCode::Tab)
        } else if lower_equals_str(t, "escape") || lower_equals_str(t, "esc") {
            Some(KeyCode::Escape)
        } else if lower_equals_str(t, "backspace") {
            Some(KeyCode::Backspace)
        } else if lower_equals_str(t, "delete") {
            Some(KeyCode::Delete)
        } else if lower_equals_str(t, "up") || lower_equals_str(t, "arrowup") {
            Some(KeyCode::ArrowUp)
        } else if lower_equals_str(t, "down") || lower_equals_str(t, "arrowdown") {
            Some(KeyCode::ArrowDown)
        } else if lower_equals_str(t, "left") || lower_equals_str(t, "arrowleft") {
            Some(KeyCode::ArrowLeft)
        } else if lower_equals_str(t, "right") || lower_equals_str(t, "arrowright") {
            Some(KeyCode::ArrowRight)
        } else if lower_equals_str(t, "f1") {
            Some(KeyCode::F1)
        } else if lower_equals_str(t, "f2") {
            Some(KeyCode::F2)
        } else if lower_equals_str(t, "f3") {
            Some(KeyCode::F3)
        } else if lower_equals_str(t, "f4") {
            Some(KeyCode::F4)
        } else if lower_equals_str(t, "f5") {
            Some(KeyCode::F5)
        } else if lower_equals_str(t, "f6") {
            Some(KeyCode::F6)
        } else if lower_equals_str(t, "f7") {
            Some(KeyCode::F7)
        } else if lower_equals_str(t, "f8") {
            Some(KeyCode::F8)
        } else if lower_equals_str(t, "f9") {
            Some(KeyCode::F9)
        } else if lower_equals_str(t, "f10") {
            Some(KeyCode::F10)
        } else if lower_equals_str(t, "f11") {
            Some(KeyCode::F11)
        } else if lower_equals_str(t, "f12") {
            Some(KeyCode::F12)
        } else {
            None
        }
}

/// The name of a key that is not a modifier, if it has one.
pub fn key_to_string(key: &KeyCode) -> (s: Option<&'static str>)
    ensures
        s is Some <==> spec_key_name(*key) is Some,
        s matches Some(w) ==> w@ == spec_key_name(*key)->Some_0,
{
        match key {
            KeyCode::KeyA => Some("a"),
            KeyCode::KeyB => Some("b"),
            KeyCode::KeyC => Some("c"),
            KeyCode::KeyD => Some("d"),
            KeyCode::KeyE => Some("e"),
            KeyCode::KeyF => Some("f"),
            KeyCode::KeyG => Some("g"),
            KeyCode::KeyH => Some("h"),
            KeyCode::KeyI => Some("i"),
            KeyCode::KeyJ => Some("j"),
            KeyCode::KeyK => Some("k"),
            KeyCode::KeyL => Some("l"),
            KeyCode::KeyM => Some("m"),
            KeyCode::KeyN => Some("n"),
            KeyCode::KeyO => Some("o"),
            KeyCode::KeyP => Some("p"),
            KeyCode::KeyQ => Some("q"),
            KeyCode::KeyR => Some("r"),
            KeyCode::KeyS => Some("s"),
            KeyCode::KeyT => Some("t"),
            KeyCode::KeyU => Some("u"),
            KeyCode::KeyV => Some("v"),
            KeyCode::KeyW => Some("w"),
            KeyCode::KeyX => Some("x"),
            KeyCode::KeyY => Some("y"),
            KeyCode::KeyZ => Some("z"),
            KeyCode::Digit0 => Some("0"),
            KeyCode::Digit1 => Some("1"),
            KeyCode::Digit2 => Some("2"),
            KeyCode::Digit3 => Some("3"),
            KeyCode::Digit4 => Some("4"),
            KeyCode::Digit5 => Some("5"),
            KeyCode::Digit6 => Some("6"),
            KeyCode::Digit7 => Some("7"),
            KeyCode::Digit8 => Some("8"),
            KeyCode::Digit9 => Some("9"),
            KeyCode::Space => Some("space"),
            KeyCode::Enter => Some("enter"),
            KeyCode::Tab => Some("tab"),
            KeyCode::Escape => Some("escape"),
            KeyCode::Backspace => Some("backspace"),
            KeyCode::Delete => Some("delete"),
            KeyCode::ArrowUp => Some("up"),
            KeyCode::ArrowDown => Some("down"),
            KeyCode::ArrowLeft => Some("left"),
            KeyCode::ArrowRight => Some("right"),
            KeyCode::F1 => Some("f1"),
            KeyCode::F2 => Some("f2"),
            KeyCode::F3 => Some("f3"),
            KeyCode::F4 => Some("f4"),
            KeyCode::F5 => Some("f5"),
            KeyCode::F6 => Some("f6"),
            KeyCode::F7 => Some("f7"),
            KeyCode::F8 => Some("f8"),
            KeyCode::F9 => Some("f9"),
            KeyCode::F10 => Some("f10"),
            KeyCode::F11 => Some("f11"),
            KeyCode::F12 => Some("f12"),
            _ => None,
        }
}

/// What one part of a combo string adds.
pub fn token(part: &[char]) -> (t: ComboToken)
    ensures
        t == spec_token(part@),
{
    let tv = trimmed(part);
    let t = tv.as_slice();
    if lower_equals_str(t, "ctrl") {
        ComboToken::Key(KeyCode::ControlLeft)
    } else if lower_equals_str(t, "shift") {
        ComboToken::Key(KeyCode::ShiftLeft)
    } else if lower_equals_str(t, "alt") {
        ComboToken::Key(KeyCode::AltLeft)
    } else if lower_equals_str(t, "super") || lower_equals_str(t, "win") || lower_equals_str(t, "cmd") {
        ComboToken::Key(KeyCode::SuperLeft)
    } else if lower_equals_str(t, "lmb") {
        ComboToken::Button(MouseButton::Left)
    } else if lower_equals_str(t, "rmb") {
        ComboToken::Button(MouseButton::Right)
    } else if lower_equals_str(t, "mmb") {
        ComboToken::Button(MouseButton::Middle)
    } else if lower_equals_str(t, "bmb") || lower_equals_str(t, "button4") || lower_equals_str(t, "back") {
        ComboToken::Button(MouseButton::Button4)
    } else if lower_equals_str(t, "fmb") || lower_equals_str(t, "button5") || lower_equals_str(t, "forward") {
        ComboToken::Button(MouseButton::Button5)
    } else {
        match parse_key_any_case(t) {
            Some(k) => ComboToken::Key(k),
            None => ComboToken::Ignored,
        }
    }
}

impl InputCombo {
    /// Reads a combo string such as `"ctrl+shift+lmb"`: parts are separated by `+`,
    /// trimmed and matched without regard to ASCII case; unknown parts are ignored
    /// and a key or button named twice counts once.
    pub fn parse(s: &str) -> (c: InputCombo)
        ensures
            c@ == spec_parse(s@),
    {
        let chars = chars_of(s);
        let mut combo = InputCombo::default();
        let mut cur: Vec<char> = Vec::new();
        let ghost mut done: Seq<Seq<char>> = Seq::empty();
        for i in 0..chars.len()
            invariant
                split_on(chars@.subrange(0, i as int), '+') == done.push(cur@),
                combo@ == apply_parts(done),
        {
            let ghost pre = chars@.subrange(0, i as int);
            assert(chars@.subrange(0, i + 1).drop_last() == pre);
            assert(chars@.subrange(0, i + 1).last() == chars@[i as int]);
            if chars[i] == '+' {
                combo.apply(cur.as_slice());
                proof {
                    assert(done.push(cur@).drop_last() == done);
                    done = done.push(cur@);
                }
                cur = Vec::new();
            } else {
                cur.push(chars[i]);
                proof {
                    let p = split_on(pre, '+');
                    assert(p.update(p.len() - 1, p.last().push(chars@[i as int])) == done.push(cur@));
                }
            }
        }
        assert(chars@.subrange(0, chars@.len() as int) == chars@);
        combo.apply(cur.as_slice());
        assert(done.push(cur@).drop_last() == done);
        combo
    }

    /// Adds what one part of a combo string names.
    fn apply(&mut self, part: &[char])
        ensures
            final(self)@ == apply_part(old(self)@, part@),
    {
        match token(part) {
            ComboToken::Key(k) => self.keys.add(&k),
            ComboToken::Button(b) => self.buttons.add(&b),
            ComboToken::Ignored => {},
        }
    }

    /// The keys of the combo.
    pub fn keys(&self) -> (k: &Keys)
        ensures
            k@ == self@.0,
    {
        &self.keys
    }

    /// The mouse buttons of the combo.
    pub fn buttons(&self) -> (b: &MouseButtons)
        ensures
            b@ == self@.1,
    {
        &self.buttons
    }

    /// The modifiers of the combo: its modifier keys (control, shift, alt, super,
    /// either hand) in order, then its side buttons (`Button4`, `Button5`) in order.
    pub fn modifiers(&self) -> (m: Vec<Modifier>)
        ensures
            m@ == key_modifiers(self@.0) + button_modifiers(self@.1),
    {
        let keys = self.keys.as_slice();
        let mut m: Vec<Modifier> = Vec::new();
        for i in 0..keys.len()
            invariant
                keys@ == self@.0,
                m@ == key_modifiers(keys@.subrange(0, i as int)),
        {
            assert(keys@.subrange(0, i + 1).drop_last() == keys@.subrange(0, i as int));
            let k = keys[i];
            if matches!(
                k,
                KeyCode::ControlLeft | KeyCode::ControlRight | KeyCode::ShiftLeft
                    | KeyCode::ShiftRight | KeyCode::AltLeft | KeyCode::AltRight
                    | KeyCode::SuperLeft | KeyCode::SuperRight
            ) {
                m.push(Modifier::Key(k));
            }
        }
        assert(keys@.subrange(0, keys@.len() as int) == keys@);
        let ghost km = m@;
        let buttons = self.buttons.as_slice();
        for i in 0..buttons.len()
            invariant
                buttons@ == self@.1,
                km == key_modifiers(self@.0),
                m@ == km + button_modifiers(buttons@.subrange(0, i as int)),
        {
            assert(buttons@.subrange(0, i + 1).drop_last() == buttons@.subrange(0, i as int));
            let b = buttons[i];
            if matches!(b, MouseButton::Button4 | MouseButton::Button5) {
                m.push(Modifier::MouseButton(b));
            }
        }
        assert(buttons@.subrange(0, buttons@.len() as int) == buttons@);
        m
    }

    /// The canonical combo string, such as `ctrl+shift+a+lmb`.
    pub fn to_combo_string(&self) -> (s: String)
        ensures
            s@ == join(combo_words(self@), "+"@),
    {
        let mut words: Vec<&str> = Vec::new();
        self.push_modifier_words(&mut words);
        self.push_key_words(&mut words);
        self.push_button_words(&mut words);
        join_plus(&words)
    }

    fn push_word(words: &mut Vec<&'static str>, cond: bool, w: &'static str)
        ensures
            final(words)@.map_values(|x: &str| x@) == push_if(
                old(words)@.map_values(|x: &str| x@),
                cond,
                w@,
            ),
    {
        if cond {
            words.push(w);
            assert(final(words)@.map_values(|x: &str| x@) =~= old(words)@.map_values(|x: &str| x@).push(w@));
        }
    }

    fn push_modifier_words(&self, words: &mut Vec<&'static str>)
        requires
            old(words)@.len() == 0,
        ensures
            final(words)@.map_values(|x: &str| x@) == push_if(
                push_if(
                    push_if(
                        push_if(Seq::empty(), self@.0.contains(KeyCode::ControlLeft), "ctrl"@),
                        self@.0.contains(KeyCode::ShiftLeft),
                        "shift"@,
                    ),
                    self@.0.contains(KeyCode::AltLeft),
                    "alt"@,
                ),
                self@.0.contains(KeyCode::SuperLeft),
                "cmd"@,
            ),
    {
        assert(words@.map_values(|x: &str| x@) =~= Seq::<Seq<char>>::empty());
        let c = self.keys.contains(&KeyCode::ControlLeft);
        Self::push_word(words, c, "ctrl");
        let c = self.keys.contains(&KeyCode::ShiftLeft);
        Self::push_word(words, c, "shift");
        let c = self.keys.contains(&KeyCode::AltLeft);
        Self::push_word(words, c, "alt");
        let c = self.keys.contains(&KeyCode::SuperLeft);
        Self::push_word(words, c, "cmd");
    }

    fn push_key_words(&self, words: &mut Vec<&'static str>)
        ensures
            final(words)@.map_values(|x: &str| x@) == old(words)@.map_values(|x: &str| x@)
                + plain_key_names(self@.0),
    {
        let ghost m = words@.map_values(|x: &str| x@);
        let keys = self.keys.as_slice();
        assert(m + plain_key_names(keys@.subrange(0, 0)) =~= m);
        for i in 0..keys.len()
            invariant
                keys@ == self@.0,
                words@.map_values(|x: &str| x@) == m + plain_key_names(keys@.subrange(0, i as int)),
        {
            assert(keys@.subrange(0, i + 1).drop_last() == keys@.subrange(0, i as int));
            let ghost before = words@.map_values(|x: &str| x@);
            let k = keys[i];
            if !matches!(
                k,
                KeyCode::ControlLeft | KeyCode::ShiftLeft | KeyCode::AltLeft | KeyCode::SuperLeft
            ) {
                if let Some(name) = key_to_string(&k) {
                    words.push(name);
                    assert(words@.map_values(|x: &str| x@) =~= before.push(name@));
                }
            }
            assert(words@.map_values(|x: &str| x@) =~= m + plain_key_names(
                keys@.subrange(0, i + 1),
            ));
        }
        assert(keys@.subrange(0, keys@.len() as int) == keys@);
    }

    fn push_button_words(&self, words: &mut Vec<&'static str>)
        ensures
            final(words)@.map_values(|x: &str| x@) == push_if(
                push_if(
                    push_if(
                        push_if(
                            push_if(
                                old(words)@.map_values(|x: &str| x@),
                                self@.1.contains(MouseButton::Left),
                                "lmb"@,
                            ),
                            self@.1.contains(MouseButton::Right),
                            "rmb"@,
                        ),
                        self@.1.contains(MouseButton::Middle),
                        "mmb"@,
                    ),
                    self@.1.contains(MouseButton::Button4),
                    "back"@,
                ),
                self@.1.contains(MouseButton::Button5),
                "forward"@,
            ),
    {
        let c = self.buttons.contains(&MouseButton::Left);
        Self::push_word(words, c, "lmb");
        let c = self.buttons.contains(&MouseButton::Right);
        Self::push_word(words, c, "rmb");
        let c = self.buttons.contains(&MouseButton::Middle);
        Self::push_word(words, c, "mmb");
        let c = self.buttons.contains(&MouseButton::Button4);
        Self::push_word(words, c, "back");
        let c = self.buttons.contains(&MouseButton::Button5);
        Self::push_word(words, c, "forward");
    }
}

} // verus!

verus! {

/// No character of `s` is an upper-case ASCII letter.
pub open spec fn no_upper(s: Seq<char>) -> bool
    decreases s.len(),
{
    s.len() == 0 || (!('A' <= s[0] <= 'Z') && no_upper(s.drop_first()))
}

pub proof fn lemma_no_upper_matches_itself(s: Seq<char>)
    requires
        no_upper(s),
    ensures
        lower_equals(s, s),
    decreases s.len(),
{
    if s.len() > 0 {
        lemma_no_upper_matches_itself(s.drop_first());
        assert forall|i: int| 0 <= i < s.len() implies ascii_lower_code(s[i]) == s[i] as u32 by {
            if i > 0 {
                assert(s[i] == s.drop_first()[i - 1]);
            }
        }
    }
}

/// The name a combo string uses for a key reads back as that key.
#[verifier::rlimit(50)]
pub proof fn lemma_key_name_parses(k: KeyCode)
    requires
        spec_key_name(k) is Some,
    ensures
        spec_parse_key(spec_key_name(k)->0) == Some(k),
{
    reveal_strlit("0");
    reveal_strlit("1");
    reveal_strlit("2");
    reveal_strlit("3");
    reveal_strlit("4");
    reveal_strlit("5");
    reveal_strlit("6");
    reveal_strlit("7");
    reveal_strlit("8");
    reveal_strlit("9");
    reveal_strlit("a");
    reveal_strlit("arrowdown");
    reveal_strlit("arrowleft");
    reveal_strlit("arrowright");
    reveal_strlit("arrowup");
    reveal_strlit("b");
    reveal_strlit("backspace");
    reveal_strlit("c");
    reveal_strlit("d");
    reveal_strlit("delete");
    reveal_strlit("down");
    reveal_strlit("e");
    reveal_strlit("enter");
    reveal_strlit("esc");
    reveal_strlit("escape");
    reveal_strlit("f");
    reveal_strlit("f1");
    reveal_strlit("f10");
    reveal_strlit("f11");
    reveal_strlit("f12");
    reveal_strlit("f2");
    reveal_strlit("f3");
    reveal_strlit("f4");
    reveal_strlit("f5");
    reveal_strlit("f6");
    reveal_strlit("f7");
    reveal_strlit("f8");
    reveal_strlit("f9");
    reveal_strlit("g");
    reveal_strlit("h");
    reveal_strlit("i");
    reveal_strlit("j");
    reveal_strlit("k");
    reveal_strlit("l");
    reveal_strlit("left");
    reveal_strlit("m");
    reveal_strlit("n");
    reveal_strlit("o");
    reveal_strlit("p");
    reveal_strlit("q");
    reveal_strlit("r");
    reveal_strlit("return");
    reveal_strlit("right");
    reveal_strlit("s");
    reveal_strlit("space");
    reveal_strlit("t");
    reveal_strlit("tab");
    reveal_strlit("u");
    reveal_strlit("up");
    reveal_strlit("v");
    reveal_strlit("w");
    reveal_strlit("x");
    reveal_strlit("y");
    reveal_strlit("z");
    reveal_with_fuel(no_upper, 10);
    let w = spec_key_name(k)->0;
    assert(no_upper(w));
    lemma_no_upper_matches_itself(w);
}


/// Every other name of a key reads as the same key as its main name, in any
/// ASCII case: `esc` as `escape`, `return` as `enter`, and `up`, `down`,
/// `left`, `right` as the arrow keys.
pub proof fn lemma_key_aliases(t: Seq<char>)
    ensures
        lower_equals(t, "esc"@) ==> spec_parse_key(t) == Some(KeyCode::Escape)
            && spec_parse_key(t) == spec_parse_key("escape"@),
        lower_equals(t, "return"@) ==> spec_parse_key(t) == Some(KeyCode::Enter)
            && spec_parse_key(t) == spec_parse_key("enter"@),
        lower_equals(t, "up"@) ==> spec_parse_key(t) == Some(KeyCode::ArrowUp)
            && spec_parse_key(t) == spec_parse_key("arrowup"@),
        lower_equals(t, "down"@) ==> spec_parse_key(t) == Some(KeyCode::ArrowDown)
            && spec_parse_key(t) == spec_parse_key("arrowdown"@),
        lower_equals(t, "left"@) ==> spec_parse_key(t) == Some(KeyCode::ArrowLeft)
            && spec_parse_key(t) == spec_parse_key("arrowleft"@),
        lower_equals(t, "right"@) ==> spec_parse_key(t) == Some(KeyCode::ArrowRight)
            && spec_parse_key(t) == spec_parse_key("arrowright"@),
{
    lemma_key_name_parses(KeyCode::Escape);
    lemma_key_name_parses(KeyCode::Enter);
    lemma_no_upper_matches_itself_words();
    lemma_parse_key_words(t);
    lemma_parse_key_words("arrowup"@);
    lemma_parse_key_words("arrowdown"@);
    lemma_parse_key_words("arrowleft"@);
    lemma_parse_key_words("arrowright"@);
}

/// What a part that matches one of the other key names reads as.
proof fn lemma_parse_key_words(t: Seq<char>)
    ensures
        lower_equals(t, "esc"@) ==> spec_parse_key(t) == Some(KeyCode::Escape),
        lower_equals(t, "return"@) ==> spec_parse_key(t) == Some(KeyCode::Enter),
        lower_equals(t, "up"@) || lower_equals(t, "arrowup"@) ==> spec_parse_key(t) == Some(KeyCode::ArrowUp),
        lower_equals(t, "down"@) || lower_equals(t, "arrowdown"@) ==> spec_parse_key(t) == Some(KeyCode::ArrowDown),
        lower_equals(t, "left"@) || lower_equals(t, "arrowleft"@) ==> spec_parse_key(t) == Some(KeyCode::ArrowLeft),
        lower_equals(t, "right"@) || lower_equals(t, "arrowright"@) ==> spec_parse_key(t) == Some(KeyCode::ArrowRight),
{
    lemma_parse_key_word_esc(t);
    lemma_parse_key_word_return(t);
    lemma_parse_key_word_up(t);
    lemma_parse_key_word_down(t);
    lemma_parse_key_word_left(t);
    lemma_parse_key_word_right(t);
}

#[verifier::rlimit(100)]
proof fn lemma_parse_key_word_esc(t: Seq<char>)
    ensures
        lower_equals(t, "esc"@) ==> spec_parse_key(t) == Some(KeyCode::Escape),
{
    reveal_strlit("0");
    reveal_strlit("1");
    reveal_strlit("2");
    reveal_strlit("3");
    reveal_strlit("4");
    reveal_strlit("5");
    reveal_strlit("6");
    reveal_strlit("7");
    reveal_strlit("8");
    reveal_strlit("9");
    reveal_strlit("a");
    reveal_strlit("arrowdown");
    reveal_strlit("arrowleft");
    reveal_strlit("arrowright");
    reveal_strlit("arrowup");
    reveal_strlit("b");
    reveal_strlit("backspace");
    reveal_strlit("c");
    reveal_strlit("d");
    reveal_strlit("delete");
    reveal_strlit("down");
    reveal_strlit("e");
    reveal_strlit("enter");
    reveal_strlit("esc");
    reveal_strlit("escape");
    reveal_strlit("f");
    reveal_strlit("g");
    reveal_strlit("h");
    reveal_strlit("i");
    reveal_strlit("j");
    reveal_strlit("k");
    reveal_strlit("l");
    reveal_strlit("left");
    reveal_strlit("m");
    reveal_strlit("n");
    reveal_strlit("o");
    reveal_strlit("p");
    reveal_strlit("q");
    reveal_strlit("r");
    reveal_strlit("return");
    reveal_strlit("right");
    reveal_strlit("s");
    reveal_strlit("space");
    reveal_strlit("t");
    reveal_strlit("tab");
    reveal_strlit("u");
    reveal_strlit("up");
    reveal_strlit("v");
    reveal_strlit("w");
    reveal_strlit("x");
    reveal_strlit("y");
    reveal_strlit("z");
    if lower_equals(t, "esc"@) {
        assert(ascii_lower_code(t[0]) == 'e' as u32);
        assert(ascii_lower_code(t[1]) == 's' as u32);
        assert(ascii_lower_code(t[2]) == 'c' as u32);
    }
}

#[verifier::rlimit(100)]
proof fn lemma_parse_key_word_return(t: Seq<char>)
    ensures
        lower_equals(t, "return"@) ==> spec_parse_key(t) == Some(KeyCode::Enter),
{
    reveal_strlit("0");
    reveal_strlit("1");
    reveal_strlit("2");
    reveal_strlit("3");
    reveal_strlit("4");
    reveal_strlit("5");
    reveal_strlit("6");
    reveal_strlit("7");
    reveal_strlit("8");
    reveal_strlit("9");
    reveal_strlit("a");
    reveal_strlit("arrowdown");
    reveal_strlit("arrowleft");
    reveal_strlit("arrowright");
    reveal_strlit("arrowup");
    reveal_strlit("b");
    reveal_strlit("backspace");
    reveal_strlit("c");
    reveal_strlit("d");
    reveal_strlit("delete");
    reveal_strlit("down");
    reveal_strlit("e");
    reveal_strlit("enter");
    reveal_strlit("esc");
    reveal_strlit("escape");
    reveal_strlit("f");
    reveal_strlit("g");
    reveal_strlit("h");
    reveal_strlit("i");
    reveal_strlit("j");
    reveal_strlit("k");
    reveal_strlit("l");
    reveal_strlit("left");
    reveal_strlit("m");
    reveal_strlit("n");
    reveal_strlit("o");
    reveal_strlit("p");
    reveal_strlit("q");
    reveal_strlit("r");
    reveal_strlit("return");
    reveal_strlit("right");
    reveal_strlit("s");
    reveal_strlit("space");
    reveal_strlit("t");
    reveal_strlit("tab");
    reveal_strlit("u");
    reveal_strlit("up");
    reveal_strlit("v");
    reveal_strlit("w");
    reveal_strlit("x");
    reveal_strlit("y");
    reveal_strlit("z");
    if lower_equals(t, "return"@) {
        assert(ascii_lower_code(t[0]) == 'r' as u32);
        assert(ascii_lower_code(t[1]) == 'e' as u32);
        assert(ascii_lower_code(t[2]) == 't' as u32);
        assert(ascii_lower_code(t[3]) == 'u' as u32);
        assert(ascii_lower_code(t[4]) == 'r' as u32);
        assert(ascii_lower_code(t[5]) == 'n' as u32);
    }
}

#[verifier::rlimit(100)]
proof fn lemma_parse_key_word_up(t: Seq<char>)
    ensures
        lower_equals(t, "up"@) || lower_equals(t, "arrowup"@) ==> spec_parse_key(t) == Some(KeyCode::ArrowUp),
{
    reveal_strlit("0");
    reveal_strlit("1");
    reveal_strlit("2");
    reveal_strlit("3");
    reveal_strlit("4");
    reveal_strlit("5");
    reveal_strlit("6");
    reveal_strlit("7");
    reveal_strlit("8");
    reveal_strlit("9");
    reveal_strlit("a");
    reveal_strlit("arrowdown");
    reveal_strlit("arrowleft");
    reveal_strlit("arrowright");
    reveal_strlit("arrowup");
    reveal_strlit("b");
    reveal_strlit("backspace");
    reveal_strlit("c");
    reveal_strlit("d");
    reveal_strlit("delete");
    reveal_strlit("down");
    reveal_strlit("e");
    reveal_strlit("enter");
    reveal_strlit("esc");
    reveal_strlit("escape");
    reveal_strlit("f");
    reveal_strlit("g");
    reveal_strlit("h");
    reveal_strlit("i");
    reveal_strlit("j");
    reveal_strlit("k");
    reveal_strlit("l");
    reveal_strlit("left");
    reveal_strlit("m");
    reveal_strlit("n");
    reveal_strlit("o");
    reveal_strlit("p");
    reveal_strlit("q");
    reveal_strlit("r");
    reveal_strlit("return");
    reveal_strlit("right");
    reveal_strlit("s");
    reveal_strlit("space");
    reveal_strlit("t");
    reveal_strlit("tab");
    reveal_strlit("u");
    reveal_strlit("up");
    reveal_strlit("v");
    reveal_strlit("w");
    reveal_strlit("x");
    reveal_strlit("y");
    reveal_strlit("z");
    if lower_equals(t, "up"@) {
        assert(ascii_lower_code(t[0]) == 'u' as u32);
        assert(ascii_lower_code(t[1]) == 'p' as u32);
    }
    if lower_equals(t, "arrowup"@) {
        assert(ascii_lower_code(t[0]) == 'a' as u32);
        assert(ascii_lower_code(t[1]) == 'r' as u32);
        assert(ascii_lower_code(t[2]) == 'r' as u32);
        assert(ascii_lower_code(t[3]) == 'o' as u32);
        assert(ascii_lower_code(t[4]) == 'w' as u32);
        assert(ascii_lower_code(t[5]) == 'u' as u32);
        assert(ascii_lower_code(t[6]) == 'p' as u32);
    }
}

#[verifier::rlimit(100)]
proof fn lemma_parse_key_word_down(t: Seq<char>)
    ensures
        lower_equals(t, "down"@) || lower_equals(t, "arrowdown"@) ==> spec_parse_key(t) == Some(KeyCode::ArrowDown),
{
    reveal_strlit("0");
    reveal_strlit("1");
    reveal_strlit("2");
    reveal_strlit("3");
    reveal_strlit("4");
    reveal_strlit("5");
    reveal_strlit("6");
    reveal_strlit("7");
    reveal_strlit("8");
    reveal_strlit("9");
    reveal_strlit("a");
    reveal_strlit("arrowdown");
    reveal_strlit("arrowleft");
    reveal_strlit("arrowright");
    reveal_strlit("arrowup");
    reveal_strlit("b");
    reveal_strlit("backspace");
    reveal_strlit("c");
    reveal_strlit("d");
    reveal_strlit("delete");
    reveal_strlit("down");
    reveal_strlit("e");
    reveal_strlit("enter");
    reveal_strlit("esc");
    reveal_strlit("escape");
    reveal_strlit("f");
    reveal_strlit("g");
    reveal_strlit("h");
    reveal_strlit("i");
    reveal_strlit("j");
    reveal_strlit("k");
    reveal_strlit("l");
    reveal_strlit("left");
    reveal_strlit("m");
    reveal_strlit("n");
    reveal_strlit("o");
    reveal_strlit("p");
    reveal_strlit("q");
    reveal_strlit("r");
    reveal_strlit("return");
    reveal_strlit("right");
    reveal_strlit("s");
    reveal_strlit("space");
    reveal_strlit("t");
    reveal_strlit("tab");
    reveal_strlit("u");
    reveal_strlit("up");
    reveal_strlit("v");
    reveal_strlit("w");
    reveal_strlit("x");
    reveal_strlit("y");
    reveal_strlit("z");
    if lower_equals(t, "down"@) {
        assert(ascii_lower_code(t[0]) == 'd' as u32);
        assert(ascii_lower_code(t[1]) == 'o' as u32);
        assert(ascii_lower_code(t[2]) == 'w' as u32);
        assert(ascii_lower_code(t[3]) == 'n' as u32);
    }
    if lower_equals(t, "arrowdown"@) {
        assert(ascii_lower_code(t[0]) == 'a' as u32);
        assert(ascii_lower_code(t[1]) == 'r' as u32);
        assert(ascii_lower_code(t[2]) == 'r' as u32);
        assert(ascii_lower_code(t[3]) == 'o' as u32);
        assert(ascii_lower_code(t[4]) == 'w' as u32);
        assert(ascii_lower_code(t[5]) == 'd' as u32);
        assert(ascii_lower_code(t[6]) == 'o' as u32);
        assert(ascii_lower_code(t[7]) == 'w' as u32);
        assert(ascii_lower_code(t[8]) == 'n' as u32);
    }
}

#[verifier::rlimit(100)]
proof fn lemma_parse_key_word_left(t: Seq<char>)
    ensures
        lower_equals(t, "left"@) || lower_equals(t, "arrowleft"@) ==> spec_parse_key(t) == Some(KeyCode::ArrowLeft),
{
    reveal_strlit("0");
    reveal_strlit("1");
    reveal_strlit("2");
    reveal_strlit("3");
    reveal_strlit("4");
    reveal_strlit("5");
    reveal_strlit("6");
    reveal_strlit("7");
    reveal_strlit("8");
    reveal_strlit("9");
    reveal_strlit("a");
    reveal_strlit("arrowdown");
    reveal_strlit("arrowleft");
    reveal_strlit("arrowright");
    reveal_strlit("arrowup");
    reveal_strlit("b");
    reveal_strlit("backspace");
    reveal_strlit("c");
    reveal_strlit("d");
    reveal_strlit("delete");
    reveal_strlit("down");
    reveal_strlit("e");
    reveal_strlit("enter");
    reveal_strlit("esc");
    reveal_strlit("escape");
    reveal_strlit("f");
    reveal_strlit("g");
    reveal_strlit("h");
    reveal_strlit("i");
    reveal_strlit("j");
    reveal_strlit("k");
    reveal_strlit("l");
    reveal_strlit("left");
    reveal_strlit("m");
    reveal_strlit("n");
    reveal_strlit("o");
    reveal_strlit("p");
    reveal_strlit("q");
    reveal_strlit("r");
    reveal_strlit("return");
    reveal_strlit("right");
    reveal_strlit("s");
    reveal_strlit("space");
    reveal_strlit("t");
    reveal_strlit("tab");
    reveal_strlit("u");
    reveal_strlit("up");
    reveal_strlit("v");
    reveal_strlit("w");
    reveal_strlit("x");
    reveal_strlit("y");
    reveal_strlit("z");
    if lower_equals(t, "left"@) {
        assert(ascii_lower_code(t[0]) == 'l' as u32);
        assert(ascii_lower_code(t[1]) == 'e' as u32);
        assert(ascii_lower_code(t[2]) == 'f' as u32);
        assert(ascii_lower_code(t[3]) == 't' as u32);
    }
    if lower_equals(t, "arrowleft"@) {
        assert(ascii_lower_code(t[0]) == 'a' as u32);
        assert(ascii_lower_code(t[1]) == 'r' as u32);
        assert(ascii_lower_code(t[2]) == 'r' as u32);
        assert(ascii_lower_code(t[3]) == 'o' as u32);
        assert(ascii_lower_code(t[4]) == 'w' as u32);
        assert(ascii_lower_code(t[5]) == 'l' as u32);
        assert(ascii_lower_code(t[6]) == 'e' as u32);
        assert(ascii_lower_code(t[7]) == 'f' as u32);
        assert(ascii_lower_code(t[8]) == 't' as u32);
    }
}

#[verifier::rlimit(100)]
proof fn lemma_parse_key_word_right(t: Seq<char>)
    ensures
        lower_equals(t, "right"@) || lower_equals(t, "arrowright"@) ==> spec_parse_key(t) == Some(KeyCode::ArrowRight),
{
    reveal_strlit("0");
    reveal_strlit("1");
    reveal_strlit("2");
    reveal_strlit("3");
    reveal_strlit("4");
    reveal_strlit("5");
    reveal_strlit("6");
    reveal_strlit("7");
    reveal_strlit("8");
    reveal_strlit("9");
    reveal_strlit("a");
    reveal_strlit("arrowdown");
    reveal_strlit("arrowleft");
    reveal_strlit("arrowright");
    reveal_strlit("arrowup");
    reveal_strlit("b");
    reveal_strlit("backspace");
    reveal_strlit("c");
    reveal_strlit("d");
    reveal_strlit("delete");
    reveal_strlit("down");
    reveal_strlit("e");
    reveal_strlit("enter");
    reveal_strlit("esc");
    reveal_strlit("escape");
    reveal_strlit("f");
    reveal_strlit("g");
    reveal_strlit("h");
    reveal_strlit("i");
    reveal_strlit("j");
    reveal_strlit("k");
    reveal_strlit("l");
    reveal_strlit("left");
    reveal_strlit("m");
    reveal_strlit("n");
    reveal_strlit("o");
    reveal_strlit("p");
    reveal_strlit("q");
    reveal_strlit("r");
    reveal_strlit("return");
    reveal_strlit("right");
    reveal_strlit("s");
    reveal_strlit("space");
    reveal_strlit("t");
    reveal_strlit("tab");
    reveal_strlit("u");
    reveal_strlit("up");
    reveal_strlit("v");
    reveal_strlit("w");
    reveal_strlit("x");
    reveal_strlit("y");
    reveal_strlit("z");
    if lower_equals(t, "right"@) {
        assert(ascii_lower_code(t[0]) == 'r' as u32);
        assert(ascii_lower_code(t[1]) == 'i' as u32);
        assert(ascii_lower_code(t[2]) == 'g' as u32);
        assert(ascii_lower_code(t[3]) == 'h' as u32);
        assert(ascii_lower_code(t[4]) == 't' as u32);
    }
    if lower_equals(t, "arrowright"@) {
        assert(ascii_lower_code(t[0]) == 'a' as u32);
        assert(ascii_lower_code(t[1]) == 'r' as u32);
        assert(ascii_lower_code(t[2]) == 'r' as u32);
        assert(ascii_lower_code(t[3]) == 'o' as u32);
        assert(ascii_lower_code(t[4]) == 'w' as u32);
        assert(ascii_lower_code(t[5]) == 'r' as u32);
        assert(ascii_lower_code(t[6]) == 'i' as u32);
        assert(ascii_lower_code(t[7]) == 'g' as u32);
        assert(ascii_lower_code(t[8]) == 'h' as u32);
        assert(ascii_lower_code(t[9]) == 't' as u32);
    }
}

/// The main key names match themselves.
proof fn lemma_no_upper_matches_itself_words()
    ensures
        lower_equals("escape"@, "escape"@),
        lower_equals("enter"@, "enter"@),
        lower_equals("arrowup"@, "arrowup"@),
        lower_equals("arrowdown"@, "arrowdown"@),
        lower_equals("arrowleft"@, "arrowleft"@),
        lower_equals("arrowright"@, "arrowright"@),
{
    assert forall|w: Seq<char>| #[trigger] lower_equals(w, w) || true by {}
    assert forall|w: Seq<char>| w.len() >= 0 implies lower_equals(w, w) || !no_upper(w) by {
        if no_upper(w) {
            lemma_no_upper_matches_itself(w);
        }
    }
    reveal_strlit("escape");
    reveal_strlit("enter");
    reveal_strlit("arrowup");
    reveal_strlit("arrowdown");
    reveal_strlit("arrowleft");
    reveal_strlit("arrowright");
    reveal_with_fuel(no_upper, 11);
    assert(no_upper("escape"@));
    assert(no_upper("enter"@));
    assert(no_upper("arrowup"@));
    assert(no_upper("arrowdown"@));
    assert(no_upper("arrowleft"@));
    assert(no_upper("arrowright"@));
}

} // verus!
