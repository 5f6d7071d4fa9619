use ultrawm_core::config::input_combo::{key_to_string, parse_key, InputCombo, Modifier};
use ultrawm_core::config::keybind::{KeyboardKeybind, ModMouseKeybind, MouseKeybind};
use ultrawm_core::input::{KeyCode, Keys, MouseButton, MouseButtons};
use ultrawm_core::keybind::Keybind as SimpleKeybind;

fn chars(s: &str) -> Vec<char> {
    s.chars().collect()
}

#[test]
fn parse_combo_with_modifiers_and_buttons() {
    let c = InputCombo::parse("ctrl+shift+lmb");
    assert_eq!(c.keys().as_slice(), &[KeyCode::ControlLeft, KeyCode::ShiftLeft]);
    assert_eq!(c.buttons().as_slice(), &[MouseButton::Left]);
}

#[test]
fn parse_combo_ignores_case_spaces_and_unknown_words() {
    let c = InputCombo::parse(" Ctrl + SHIFT + nonsense + A ");
    assert_eq!(c.keys().as_slice(), &[KeyCode::ControlLeft, KeyCode::ShiftLeft, KeyCode::KeyA]);
    assert!(!c.buttons().any());
}

#[test]
fn parse_combo_aliases() {
    let c = InputCombo::parse("cmd+win+super+back+button5");
    assert_eq!(c.keys().as_slice(), &[KeyCode::SuperLeft]);
    assert_eq!(c.buttons().as_slice(), &[MouseButton::Button4, MouseButton::Button5]);
}

#[test]
fn parse_empty_combo() {
    let c = InputCombo::parse("");
    assert!(!c.keys().any());
    assert!(!c.buttons().any());
}

#[test]
fn combo_string_is_canonical() {
    let c = InputCombo::parse("lmb+a+shift+ctrl");
    assert_eq!(c.to_combo_string(), "ctrl+shift+a+lmb");
    let c = InputCombo::parse("fmb+bmb+mmb+rmb+lmb");
    assert_eq!(c.to_combo_string(), "lmb+rmb+mmb+back+forward");
}

#[test]
fn combo_string_round_trips() {
    for s in ["ctrl+lmb", "cmd+shift+o", "alt+f4", "shift+space+rmb", "a+ctrl+rmb", "Esc+super+Return+fmb", ""] {
        let c = InputCombo::parse(s);
        let again = InputCombo::parse(&c.to_combo_string());
        assert!(again.keys().matches(c.keys()));
        assert!(again.buttons().matches(c.buttons()));
    }
}

#[test]
fn parse_key_names() {
    assert_eq!(parse_key(&chars("a")), Some(KeyCode::KeyA));
    assert_eq!(parse_key(&chars("Z")), None);
    assert_eq!(parse_key(&chars("Up")), None);
    assert_eq!(parse_key(&chars("f12")), Some(KeyCode::F12));
    assert_eq!(parse_key(&chars("up")), Some(KeyCode::ArrowUp));
    assert_eq!(parse_key(&chars("7")), Some(KeyCode::Digit7));
    assert_eq!(parse_key(&chars("nope")), None);
}

#[test]
fn key_names_round_trip() {
    let keys = [
        KeyCode::KeyA,
        KeyCode::KeyQ,
        KeyCode::Digit0,
        KeyCode::Space,
        KeyCode::Escape,
        KeyCode::ArrowLeft,
        KeyCode::F1,
        KeyCode::F10,
    ];
    for k in keys {
        let name = key_to_string(&k).expect("named key");
        assert_eq!(parse_key(&chars(name)), Some(k));
    }
    assert_eq!(key_to_string(&KeyCode::ControlLeft), None);
    assert_eq!(key_to_string(&KeyCode::Other(7)), None);
}

#[test]
fn combo_modifiers_lists_modifier_keys_then_buttons() {
    let c = InputCombo::parse("ctrl+a+bmb+lmb");
    assert_eq!(
        c.modifiers(),
        vec![Modifier::Key(KeyCode::ControlLeft), Modifier::MouseButton(MouseButton::Button4)]
    );
}

#[test]
fn keys_add_is_a_set() {
    let mut k = Keys::new();
    k.add(&KeyCode::KeyA);
    k.add(&KeyCode::KeyA);
    k.add(&KeyCode::KeyB);
    assert_eq!(k.len(), 2);
    assert!(k.contains(&KeyCode::KeyB));
    let mut other = Keys::new();
    other.add(&KeyCode::KeyB);
    other.add(&KeyCode::KeyA);
    assert!(k.matches(&other));
    assert!(k.contains_all(&other));
}

#[test]
fn mouse_buttons_match_regardless_of_order() {
    let mut a = MouseButtons::new();
    a.add(&MouseButton::Left);
    a.add(&MouseButton::Right);
    let mut b = MouseButtons::new();
    b.add(&MouseButton::Right);
    b.add(&MouseButton::Left);
    assert!(a.matches(&b));
    b.add(&MouseButton::Middle);
    assert!(!a.matches(&b));
    assert!(b.contains_all(&a));
}

#[test]
fn keybind_matches_exactly_held_inputs() {
    let kb = ModMouseKeybind::from_strs(&["ctrl+lmb", "bmb+lmb"]);
    let mut keys = Keys::new();
    keys.add(&KeyCode::ControlLeft);
    let mut buttons = MouseButtons::new();
    buttons.add(&MouseButton::Left);
    assert!(kb.matches(&keys, &buttons));
    buttons.add(&MouseButton::Right);
    assert!(!kb.matches(&keys, &buttons));
}

#[test]
fn keybind_modifiers_match_ignores_main_buttons() {
    let kb = ModMouseKeybind::from_strs(&["ctrl+lmb"]);
    let mut keys = Keys::new();
    keys.add(&KeyCode::ControlLeft);
    let buttons = MouseButtons::new();
    assert!(kb.modifiers_match(&keys, &buttons));
    let none = Keys::new();
    assert!(!kb.modifiers_match(&none, &buttons));
}

#[test]
fn mouse_keybind_refuses_key_combos() {
    let combos = vec![InputCombo::parse("ctrl+a")];
    assert!(MouseKeybind::from_combos(combos).is_err());
    let combos = vec![InputCombo::parse("lmb")];
    assert!(MouseKeybind::from_combos(combos).is_ok());
    let combos = vec![InputCombo::parse("ctrl+a")];
    assert!(KeyboardKeybind::from_combos(combos).is_ok());
}

#[test]
fn empty_keybind_never_matches() {
    let kb = KeyboardKeybind::empty();
    assert!(kb.combos().is_empty());
    assert!(!kb.matches(&Keys::new(), &MouseButtons::new()));
}

#[test]
fn simple_keybind_parse_and_string() {
    let kb = SimpleKeybind::parse("shift+ctrl+rmb");
    assert!(kb.keys.contains(&KeyCode::ControlLeft));
    assert!(kb.keys.contains(&KeyCode::ShiftLeft));
    assert!(kb.mouse.contains(&MouseButton::Right));
    assert_eq!(kb.to_keybind_string(), "ctrl+shift+rmb");
}

