use vstd::prelude::*;
use std::marker::PhantomData;
use crate::config::input_combo::{
    button_modifiers, key_modifiers, spec_parse, ComboView, InputCombo, Modifier,
};
use crate::input::{KeyCode, Keys, MouseButton, MouseButtons};

verus! {

/// A kind of key binding, with the rule that each of its combos must obey.
pub trait KeybindVariant: Sized {
    /// The rule that a combo of this kind of binding obeys.
    spec fn spec_valid(c: ComboView) -> bool;

    /// Checks one combo, giving the reason when it is refused.
    fn validate(combo: &InputCombo) -> (r: Result<(), &'static str>)
        ensures
            r is Ok <==> Self::spec_valid(combo@),
    ;
}

/// A binding that must name at least one mouse button in each combo.
#[derive(Debug, Clone, Copy)]
pub struct MouseKeybindVariant;

impl KeybindVariant for MouseKeybindVariant {
    open spec fn spec_valid(c: ComboView) -> bool {
        c.1.len() > 0
    }

    fn validate(combo: &InputCombo) -> (r: Result<(), &'static str>) {
        if !combo.buttons().any() {
            return Err("This keybind must contain at least one mouse button");
        }
        Ok(())
    }
}

/// A binding whose combos each hold at least one key and at least one modifier.
#[derive(Debug, Clone, Copy)]
pub struct ModifiedMouseKeybindVariant;

impl KeybindVariant for ModifiedMouseKeybindVariant {
    open spec fn spec_valid(c: ComboView) -> bool {
        c.0.len() > 0 && (key_modifiers(c.0) + button_modifiers(c.1)).len() > 0
    }

    fn validate(combo: &InputCombo) -> (r: Result<(), &'static str>) {
        if !combo.keys().any() {
            return Err("This keybind must contain at least one key");
        }
        if combo.modifiers().len() == 0 {
            return Err("This keybind must contain at least one modifier");
        }
        Ok(())
    }
}

/// A keyboard shortcut: any combo is accepted.
#[derive(Debug, Clone, Copy)]
pub struct KeyboardKeybindVariant;

impl KeybindVariant for KeyboardKeybindVariant {
    open spec fn spec_valid(c: ComboView) -> bool {
        true
    }

    fn validate(combo: &InputCombo) -> (r: Result<(), &'static str>) {
        Ok(())
    }
}

/// The keys of `c` are exactly `keys` (order and repetition aside).
pub open spec fn keys_match(c: ComboView, keys: Seq<KeyCode>) -> bool {
    c.0.to_set() == keys.to_set()
}

/// The buttons of `c` are exactly `buttons` (order and repetition aside).
pub open spec fn buttons_match(c: ComboView, buttons: Seq<MouseButton>) -> bool {
    c.1.to_set() == buttons.to_set()
}

/// Every modifier of `c` is held.
pub open spec fn modifiers_held(c: ComboView, keys: Seq<KeyCode>, buttons: Seq<MouseButton>) -> bool {
    let m = key_modifiers(c.0) + button_modifiers(c.1);
    forall|i: int|
        0 <= i < m.len() ==> match #[trigger] m[i] {
            Modifier::Key(k) => keys.contains(k),
            Modifier::MouseButton(b) => buttons.contains(b),
        }
}

/// A key binding: a list of alternative input combos.
#[derive(Debug)]
pub struct Keybind<T: KeybindVariant> {
    combos: Vec<InputCombo>,
    _phantom: PhantomData<T>,
}

pub type MouseKeybind = Keybind<MouseKeybindVariant>;

pub type ModifiedMouseKeybind = Keybind<ModifiedMouseKeybindVariant>;

pub type ModMouseKeybind = Keybind<ModifiedMouseKeybindVariant>;

pub type KeyboardKeybind = Keybind<KeyboardKeybindVariant>;

impl<T: KeybindVariant> View for Keybind<T> {
    type V = Seq<ComboView>;

    closed spec fn view(&self) -> Seq<ComboView> {
        self.combos@.map_values(|c: InputCombo| c@)
    }
}

impl<T: KeybindVariant> Clone for Keybind<T> {
    fn clone(&self) -> (k: Self)
        ensures
            k@ == self@,
    {
        let mut combos: Vec<InputCombo> = Vec::new();
        for i in 0..self.combos.len()
            invariant
                combos@.map_values(|c: InputCombo| c@) == self.combos@.subrange(0, i as int).map_values(
                    |c: InputCombo| c@,
                ),
        {
            let c = self.combos[i].clone();
            assert(c@ == self.combos@[i as int]@);
            let ghost prev = combos@;
            combos.push(c);
            assert(combos@.map_values(|c: InputCombo| c@) =~= prev.map_values(|c: InputCombo| c@).push(self.combos@[i as int]@));
            assert(self.combos@.subrange(0, i + 1).map_values(|c: InputCombo| c@) =~= self.combos@.subrange(0, i as int).map_values(|c: InputCombo| c@).push(self.combos@[i as int]@));
            assert(combos@.map_values(|c: InputCombo| c@) =~= self.combos@.subrange(
                0,
                i + 1,
            ).map_values(|c: InputCombo| c@));
        }
        assert(self.combos@.subrange(0, self.combos@.len() as int) == self.combos@);
        Keybind { combos, _phantom: PhantomData }
    }
}

impl<T: KeybindVariant> Keybind<T> {
    /// A binding without any combo; it never matches.
    pub fn empty() -> (k: Self)
        ensures
            k@ == Seq::<ComboView>::empty(),
    {
        let k = Keybind { combos: Vec::new(), _phantom: PhantomData };
        assert(k@ =~= Seq::<ComboView>::empty());
        k
    }

    /// A binding made of the combos that the strings describe, in order.
    pub fn from_strs(strs: &[&str]) -> (k: Self)
        ensures
            k@.len() == strs@.len(),
            forall|i: int| 0 <= i < strs@.len() ==> k@[i] == spec_parse(#[trigger] strs@[i]@),
    {
        let mut combos: Vec<InputCombo> = Vec::new();
        for i in 0..strs.len()
            invariant
                combos@.len() == i,
                forall|j: int| 0 <= j < i ==> (#[trigger] combos@[j])@ == spec_parse(strs@[j]@),
        {
            combos.push(InputCombo::parse(strs[i]));
        }
        Keybind { combos, _phantom: PhantomData }
    }

    /// A binding made of the given combos, when each obeys the rule of its kind;
    /// otherwise the reason the first refused combo gives.
    pub fn from_combos(combos: Vec<InputCombo>) -> (r: Result<Self, &'static str>)
        ensures
            r is Ok <==> forall|i: int| 0 <= i < combos@.len() ==> T::spec_valid(#[trigger] combos@[i]@),
            r matches Ok(k) ==> k@ == combos@.map_values(|c: InputCombo| c@),
    {
        for i in 0..combos.len()
            invariant
                forall|j: int| 0 <= j < i ==> T::spec_valid(#[trigger] combos@[j]@),
        {
            match T::validate(&combos[i]) {
                Ok(()) => {},
                Err(e) => return Err(e),
            }
        }
        Ok(Keybind { combos, _phantom: PhantomData })
    }

    /// The combos of the binding.
    pub fn combos(&self) -> (c: &Vec<InputCombo>)
        ensures
            c@.map_values(|x: InputCombo| x@) == self@,
    {
        &self.combos
    }

    /// Some combo holds exactly the given buttons.
    pub fn matches_buttons(&self, buttons: &MouseButtons) -> (b: bool)
        ensures
            b == exists|i: int| 0 <= i < self@.len() && buttons_match(#[trigger] self@[i], buttons@),
    {
        for i in 0..self.combos.len()
            invariant
                forall|j: int| 0 <= j < i ==> !buttons_match(#[trigger] self@[j], buttons@),
        {
            if self.combos[i].buttons().matches(buttons) {
                assert(buttons_match(self@[i as int], buttons@));
                return true;
            }
        }
        false
    }

    /// Some combo holds exactly the given keys.
    pub fn matches_keys(&self, keys: &Keys) -> (b: bool)
        ensures
            b == exists|i: int| 0 <= i < self@.len() && keys_match(#[trigger] self@[i], keys@),
    {
        for i in 0..self.combos.len()
            invariant
                forall|j: int| 0 <= j < i ==> !keys_match(#[trigger] self@[j], keys@),
        {
            if self.combos[i].keys().matches(keys) {
                assert(keys_match(self@[i as int], keys@));
                return true;
            }
        }
        false
    }

    /// Some combo holds exactly the given keys and exactly the given buttons.
    pub fn matches(&self, keys: &Keys, buttons: &MouseButtons) -> (b: bool)
        ensures
            b == exists|i: int|
                0 <= i < self@.len() && keys_match(#[trigger] self@[i], keys@) && buttons_match(
                    self@[i],
                    buttons@,
                ),
    {
        for i in 0..self.combos.len()
            invariant
                forall|j: int|
                    0 <= j < i ==> !(keys_match(#[trigger] self@[j], keys@) && buttons_match(
                        self@[j],
                        buttons@,
                    )),
        {
            if self.combos[i].keys().matches(keys) && self.combos[i].buttons().matches(buttons) {
                assert(keys_match(self@[i as int], keys@));
                return true;
            }
        }
        false
    }

    /// Some combo has all its modifiers held (its other inputs do not matter).
    pub fn modifiers_match(&self, keys: &Keys, buttons: &MouseButtons) -> (b: bool)
        ensures
            b == exists|i: int| 0 <= i < self@.len() && modifiers_held(#[trigger] self@[i], keys@, buttons@),
    {
        for i in 0..self.combos.len()
            invariant
                forall|j: int| 0 <= j < i ==> !modifiers_held(#[trigger] self@[j], keys@, buttons@),
        {
            let m = self.combos[i].modifiers();
            let mut all = true;
            let mut j: usize = 0;
            while j < m.len()
                invariant
                    m@ == key_modifiers(self@[i as int].0) + button_modifiers(self@[i as int].1),
                    j <= m@.len(),
                    all == forall|l: int|
                        0 <= l < j ==> match #[trigger] m@[l] {
                            Modifier::Key(k) => keys@.contains(k),
                            Modifier::MouseButton(b) => buttons@.contains(b),
                        },
                decreases m@.len() - j,
            {
                let held = match m[j] {
                    Modifier::Key(k) => keys.contains(&k),
                    Modifier::MouseButton(b) => buttons.contains(&b),
                };
                all = all && held;
                j = j + 1;
            }
            if all {
                assert(modifiers_held(self@[i as int], keys@, buttons@));
                return true;
            }
        }
        false
    }
}

} // verus!
