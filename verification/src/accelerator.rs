use vstd::prelude::*;
use crate::commands::CommandDef;
use crate::config::config::{lookup_keybind, Commands};
use crate::config::input_combo::{is_modifier_key, spec_parse, ComboView};
use crate::config::keybind::KeyboardKeybind;
use crate::input::KeyCode;

verus! {

/// The modifiers of a menu shortcut.
#[derive(Debug, Clone, Copy, PartialEq, Eq, Structural)]
pub struct AcceleratorModifiers {
    pub control: bool,
    pub shift: bool,
    pub alt: bool,
    pub super_key: bool,
}

/// A menu shortcut: its modifiers and the one key that triggers it.
#[derive(Debug, Clone, Copy, PartialEq, Eq, Structural)]
pub struct Accelerator {
    pub modifiers: AcceleratorModifiers,
    pub key: KeyCode,
}

/// Whether a menu shortcut can name `k` as its key: every named key but the
/// modifiers.
pub open spec fn has_accelerator_code(k: KeyCode) -> bool {
    !is_modifier_key(k) && !(k is Other)
}

/// The modifiers that `keys` hold, either side counting.
pub open spec fn spec_modifiers(keys: Seq<KeyCode>) -> AcceleratorModifiers {
    AcceleratorModifiers {
        control: keys.contains(KeyCode::ControlLeft) || keys.contains(KeyCode::ControlRight),
        shift: keys.contains(KeyCode::ShiftLeft) || keys.contains(KeyCode::ShiftRight),
        alt: keys.contains(KeyCode::AltLeft) || keys.contains(KeyCode::AltRight),
        super_key: keys.contains(KeyCode::SuperLeft) || keys.contains(KeyCode::SuperRight),
    }
}

/// `a` is the shortcut of the keys `keys`: their modifiers, and the first of
/// them that a shortcut can name.
pub open spec fn is_accelerator_of(keys: Seq<KeyCode>, a: Accelerator) -> bool {
    &&& a.modifiers == spec_modifiers(keys)
    &&& exists|i: int|
        0 <= i < keys.len() && keys[i] == a.key && has_accelerator_code(a.key) && forall|j: int|
            0 <= j < i ==> !has_accelerator_code(#[trigger] keys[j])
}

/// No key of `keys` can be named by a shortcut.
pub open spec fn no_accelerator_key(keys: Seq<KeyCode>) -> bool {
    forall|i: int| 0 <= i < keys.len() ==> !has_accelerator_code(#[trigger] keys[i])
}

/// The shortcut that the first combo of `combos` gives, as an exact relation.
pub open spec fn accelerator_of_combos(combos: Seq<ComboView>, r: Option<Accelerator>) -> bool {
    match r {
        None => combos.len() == 0 || no_accelerator_key(combos[0].0),
        Some(a) => combos.len() > 0 && is_accelerator_of(combos[0].0, a),
    }
}

/// Whether a menu shortcut can name `key`.
fn accelerator_code(key: &KeyCode) -> (b: bool)
    ensures
        b == has_accelerator_code(*key),
{
    match key {
        KeyCode::ControlLeft | KeyCode::ControlRight | KeyCode::ShiftLeft | KeyCode::ShiftRight
        | KeyCode::AltLeft | KeyCode::AltRight | KeyCode::SuperLeft | KeyCode::SuperRight => false,
        KeyCode::Other(_) => false,
        _ => true,
    }
}

/// The menu shortcut of a binding: the modifiers of its first combo and the
/// first key of that combo that a shortcut can name; none where the binding has
/// no combo or that combo has no such key.
pub fn keybind_to_accelerator(keybind: &KeyboardKeybind) -> (r: Option<Accelerator>)
    ensures
        accelerator_of_combos(keybind@, r),
{
    let combos = keybind.combos();
    if combos.len() == 0 {
        return None;
    }
    assert(combos@[0]@ == keybind@[0]);
    let keys = combos[0].keys().as_slice();
    let ghost ks = keybind@[0].0;
    let mut modifiers = AcceleratorModifiers { control: false, shift: false, alt: false, super_key: false };
    let mut key_code: Option<KeyCode> = None;
    for i in 0..keys.len()
        invariant
            keys@ == ks,
            modifiers == spec_modifiers(ks.subrange(0, i as int)),
            match key_code {
                None => no_accelerator_key(ks.subrange(0, i as int)),
                Some(k) => is_accelerator_of(ks.subrange(0, i as int), Accelerator { modifiers: spec_modifiers(ks.subrange(0, i as int)), key: k }),
            },
    {
        let ghost before = ks.subrange(0, i as int);
        let ghost after = ks.subrange(0, i + 1);
        assert(after == before.push(ks[i as int]));
        assert forall|x: KeyCode| after.contains(x) <==> (before.contains(x) || x == ks[i as int]) by {
            if after.contains(x) {
                let j = choose|j: int| 0 <= j < after.len() && after[j] == x;
                if j < i {
                    assert(before[j] == x);
                }
            }
            if before.contains(x) {
                let j = choose|j: int| 0 <= j < before.len() && before[j] == x;
                assert(after[j] == x);
            }
            if x == ks[i as int] {
                assert(after[i as int] == x);
            }
        }
        let key = keys[i];
        let ghost old_kc = key_code;
        match key {
            KeyCode::ControlLeft | KeyCode::ControlRight => {
                modifiers.control = true;
            },
            KeyCode::ShiftLeft | KeyCode::ShiftRight => {
                modifiers.shift = true;
            },
            KeyCode::AltLeft | KeyCode::AltRight => {
                modifiers.alt = true;
            },
            KeyCode::SuperLeft | KeyCode::SuperRight => {
                modifiers.super_key = true;
            },
            _ => {
                if key_code.is_none() && accelerator_code(&key) {
                    key_code = Some(key);
                }
            },
        }
        proof {
            match key_code {
                None => {
                    assert forall|j: int| 0 <= j < after.len() implies !has_accelerator_code(#[trigger] after[j]) by {
                        if j < i {
                            assert(after[j] == before[j]);
                        }
                    }
                },
                Some(k) => {
                    let b = if old_kc is Some {
                        choose|j: int|
                            0 <= j < before.len() && before[j] == k && has_accelerator_code(k) && forall|m: int|
                                0 <= m < j ==> !has_accelerator_code(#[trigger] before[m])
                    } else {
                        i as int
                    };
                    assert(0 <= b < after.len() && after[b] == k && has_accelerator_code(k));
                    assert forall|m: int| 0 <= m < b implies !has_accelerator_code(#[trigger] after[m]) by {
                        assert(after[m] == before[m]);
                    }
                },
            }
        }
    }
    assert(ks.subrange(0, keys@.len() as int) == ks);
    match key_code {
        Some(k) => Some(Accelerator { modifiers, key: k }),
        None => None,
    }
}

/// The binding that a command's menu entry shows: the one configured for its
/// id, else the command's default shortcut.
pub open spec fn menu_keybind(commands: Seq<(String, KeyboardKeybind)>, cmd: CommandDef) -> Seq<ComboView> {
    match lookup_keybind(commands, cmd.id@) {
        Some(k) => k,
        None => seq![spec_parse(cmd.default_keybind@)],
    }
}

/// The menu shortcut of a command, from its configured binding or, where none
/// is configured, its default one.
pub fn get_command_accelerator(commands: &Commands, cmd: &CommandDef) -> (r: Option<Accelerator>)
    ensures
        accelerator_of_combos(menu_keybind(commands.entries(), *cmd), r),
{
    let id = cmd.id.to_owned();
    match commands.position_of(&id) {
        Some(i) => keybind_to_accelerator(&commands.keybinds()[i].1),
        None => {
            let kb = KeyboardKeybind::from_strs(&[cmd.default_keybind]);
            assert(kb@ =~= seq![spec_parse(cmd.default_keybind@)]);
            keybind_to_accelerator(&kb)
        },
    }
}

} // verus!
