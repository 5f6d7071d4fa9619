use vstd::prelude::*;
use crate::config::input_combo::{join_plus, push_if, seq_add, ComboToken, ComboView};
use crate::text::join;
use crate::input::{KeyCode, Keys, MouseButton, MouseButtons};
use crate::text::{chars_of, lower_equals, lower_equals_str, split_on, trim, trimmed};

verus! {

/// The meaning of one part of a simple keybind string: modifiers and the
/// three main mouse buttons; anything else is ignored.
pub open spec fn spec_simple_token(part: Seq<char>) -> ComboToken {
    let t = trim(part);
    if lower_equals(t, "ctrl"@) {
        ComboToken::Key(KeyCode::ControlLeft)
    } else if lower_equals(t, "shift"@) {
        ComboToken::Key(KeyCode::ShiftLeft)
    } else if lower_equals(t, "alt"@) {
        ComboToken::Key(KeyCode::AltLeft)
    } else if lower_equals(t, "super"@) || lower_equals(t, "win"@) || lower_equals(t, "cmd"@) {
        ComboToken::Key(KeyCode::SuperLeft)
    } else if lower_equals(t, "lmb"@) {
        ComboToken::Button(MouseButton::Left)
    } else if lower_equals(t, "rmb"@) {
        ComboToken::Button(MouseButton::Right)
    } else if lower_equals(t, "mmb"@) {
        ComboToken::Button(MouseButton::Middle)
    } else {
        ComboToken::Ignored
    }
}

pub open spec fn apply_simple_part(c: ComboView, part: Seq<char>) -> ComboView {
    match spec_simple_token(part) {
        ComboToken::Key(k) => (seq_add(c.0, k), c.1),
        ComboToken::Button(b) => (c.0, seq_add(c.1, b)),
        ComboToken::Ignored => c,
    }
}

pub open spec fn apply_simple_parts(parts: Seq<Seq<char>>) -> ComboView
    decreases parts.len(),
{
    if parts.len() == 0 {
        (Seq::empty(), Seq::empty())
    } else {
        apply_simple_part(apply_simple_parts(parts.drop_last()), parts.last())
    }
}

/// The keys and buttons that a simple keybind string such as `"ctrl+shift+lmb"` names.
pub open spec fn spec_simple_parse(s: Seq<char>) -> ComboView {
    apply_simple_parts(split_on(s, '+'))
}

/// The words of the string form of a simple keybind.
pub open spec fn simple_words(c: ComboView) -> Seq<Seq<char>> {
    push_if(
        push_if(
            push_if(
                push_if(
                    push_if(
                        push_if(
                            push_if(Seq::empty(), c.0.contains(KeyCode::ControlLeft), "ctrl"@),
                            c.0.contains(KeyCode::ShiftLeft),
                            "shift"@,
                        ),
                        c.0.contains(KeyCode::AltLeft),
                        "alt"@,
                    ),
                    c.0.contains(KeyCode::SuperLeft),
                    "super"@,
                ),
                c.1.contains(MouseButton::Left),
                "lmb"@,
            ),
            c.1.contains(MouseButton::Right),
            "rmb"@,
        ),
        c.1.contains(MouseButton::Middle),
        "mmb"@,
    )
}

fn simple_token(part: &[char]) -> (t: ComboToken)
    ensures
        t == spec_simple_token(part@),
{
    let tv = trimmed(part);
    let t = tv.as_slice();
    if lower_equals_str(t, "ctrl") {
        ComboToken::Key(KeyCode::ControlLeft)
    } else if lower_equals_str(t, "shift") {
        ComboToken::Key(KeyCode::ShiftLeft)
    } else if lower_equals_str(t, "alt") {
        ComboToken::Key(KeyCode::AltLeft)
    } else if lower_equals_str(t, "super") || lower_equals_str(t, "win") || lower_equals_str(t, "cmd") {
        ComboToken::Key(KeyCode::SuperLeft)
    } else if lower_equals_str(t, "lmb") {
        ComboToken::Button(MouseButton::Left)
    } else if lower_equals_str(t, "rmb") {
        ComboToken::Button(MouseButton::Right)
    } else if lower_equals_str(t, "mmb") {
        ComboToken::Button(MouseButton::Middle)
    } else {
        ComboToken::Ignored
    }
}

/// A simple keybind: modifier keys and mouse buttons that are held together.
#[derive(Debug)]
pub struct Keybind {
    pub keys: Keys,
    pub mouse: MouseButtons,
}

impl View for Keybind {
    type V = ComboView;

    open spec fn view(&self) -> ComboView {
        (self.keys@, self.mouse@)
    }
}

impl Clone for Keybind {
    fn clone(&self) -> (k: Self)
        ensures
            k@ == self@,
    {
        Keybind { keys: self.keys.clone(), mouse: self.mouse.clone() }
    }
}

impl Default for Keybind {
    fn default() -> (k: Self)
        ensures
            k@ == (Seq::<KeyCode>::empty(), Seq::<MouseButton>::empty()),
    {
        Keybind { keys: Keys::new(), mouse: MouseButtons::new() }
    }
}

impl Keybind {
    /// Reads a keybind string like `"ctrl+shift+lmb"` (case-insensitive, order-insensitive);
    /// words it does not know are ignored.
    pub fn parse(s: &str) -> (k: Keybind)
        ensures
            k@ == spec_simple_parse(s@),
    {
        let chars = chars_of(s);
        let mut k = Keybind::default();
        let mut cur: Vec<char> = Vec::new();
        let ghost mut done: Seq<Seq<char>> = Seq::empty();
        for i in 0..chars.len()
            invariant
                split_on(chars@.subrange(0, i as int), '+') == done.push(cur@),
                k@ == apply_simple_parts(done),
        {
            let ghost pre = chars@.subrange(0, i as int);
            assert(chars@.subrange(0, i + 1).drop_last() == pre);
            assert(chars@.subrange(0, i + 1).last() == chars@[i as int]);
            if chars[i] == '+' {
                k.apply(cur.as_slice());
                proof {
                    assert(done.push(cur@).drop_last() == done);
                    done = done.push(cur@);
                }
                cur = Vec::new();
            } else {
                cur.push(chars[i]);
                proof {
                    let p = split_on(pre, '+');
                    assert(p.update(p.len() - 1, p.last().push(chars@[i as int])) == done.push(cur@));
                }
            }
        }
        assert(chars@.subrange(0, chars@.len() as int) == chars@);
        k.apply(cur.as_slice());
        assert(done.push(cur@).drop_last() == done);
        k
    }

    fn apply(&mut self, part: &[char])
        ensures
            final(self)@ == apply_simple_part(old(self)@, part@),
    {
        match simple_token(part) {
            ComboToken::Key(k) => self.keys.add(&k),
            ComboToken::Button(b) => self.mouse.add(&b),
            ComboToken::Ignored => {},
        }
    }

    /// The string form: `ctrl`, `shift`, `alt`, `super`, `lmb`, `rmb`, `mmb` (those present, in
    /// this order) joined with `+`.
    pub fn to_keybind_string(&self) -> (s: String)
        ensures
            s@ == join(simple_words(self@), "+"@),
    {
        let mut words: Vec<&str> = Vec::new();
        assert(words@.map_values(|x: &str| x@) =~= Seq::<Seq<char>>::empty());
        let c = self.keys.contains(&KeyCode::ControlLeft);
        push_word(&mut words, c, "ctrl");
        let c = self.keys.contains(&KeyCode::ShiftLeft);
        push_word(&mut words, c, "shift");
        let c = self.keys.contains(&KeyCode::AltLeft);
        push_word(&mut words, c, "alt");
        let c = self.keys.contains(&KeyCode::SuperLeft);
        push_word(&mut words, c, "super");
        let c = self.mouse.contains(&MouseButton::Left);
        push_word(&mut words, c, "lmb");
        let c = self.mouse.contains(&MouseButton::Right);
        push_word(&mut words, c, "rmb");
        let c = self.mouse.contains(&MouseButton::Middle);
        push_word(&mut words, c, "mmb");
        join_plus(&words)
    }
}

fn push_word(words: &mut Vec<&'static str>, cond: bool, w: &'static str)
    ensures
        final(words)@.map_values(|x: &str| x@) == push_if(
            old(words)@.map_values(|x: &str| x@),
            cond,
            w@,
        ),
{
    if cond {
        words.push(w);
        assert(final(words)@.map_values(|x: &str| x@) =~= old(words)@.map_values(|x: &str| x@).push(w@));
    }
}

/// The keybind holds every one of the given buttons.
pub open spec fn covers_buttons(c: ComboView, buttons: Seq<MouseButton>) -> bool {
    forall|b: MouseButton| buttons.contains(b) ==> c.1.contains(b)
}

/// The keybind holds every one of the given keys.
pub open spec fn covers_keys(c: ComboView, keys: Seq<KeyCode>) -> bool {
    forall|k: KeyCode| keys.contains(k) ==> c.0.contains(k)
}

/// Some keybind of the list holds every one of the given buttons.
pub open spec fn list_matches_mouse(list: Seq<ComboView>, buttons: Seq<MouseButton>) -> bool {
    exists|i: int| 0 <= i < list.len() && covers_buttons(#[trigger] list[i], buttons)
}

/// Some keybind of the list holds every one of the given keys.
pub open spec fn list_matches_keys(list: Seq<ComboView>, keys: Seq<KeyCode>) -> bool {
    exists|i: int| 0 <= i < list.len() && covers_keys(#[trigger] list[i], keys)
}

/// Matching of held inputs against a list of simple keybinds.
pub trait KeybindListExt {
    spec fn spec_list(&self) -> Seq<ComboView>;

    fn matches_mouse(&self, buttons: &MouseButtons) -> (b: bool)
        ensures
            b == list_matches_mouse(self.spec_list(), buttons@),
    ;

    fn matches_keys(&self, keys: &Keys) -> (b: bool)
        ensures
            b == list_matches_keys(self.spec_list(), keys@),
    ;

    /// Both the buttons and the keys are covered (possibly by different keybinds).
    fn matches(&self, keys: &Keys, buttons: &MouseButtons) -> (b: bool)
        ensures
            b == (list_matches_mouse(self.spec_list(), buttons@) && list_matches_keys(
                self.spec_list(),
                keys@,
            )),
    {
        let m = self.matches_mouse(buttons);
        if !m {
            return false;
        }
        self.matches_keys(keys)
    }
}

impl KeybindListExt for Vec<Keybind> {
    open spec fn spec_list(&self) -> Seq<ComboView> {
        self@.map_values(|k: Keybind| k@)
    }

    fn matches_mouse(&self, buttons: &MouseButtons) -> (b: bool) {
        let ghost l = self.spec_list();
        for i in 0..self.len()
            invariant
                l == self@.map_values(|k: Keybind| k@),
                forall|j: int| 0 <= j < i ==> !covers_buttons(#[trigger] l[j], buttons@),
        {
            assert(l[i as int] == self@[i as int]@);
            if self[i].mouse.contains_all(buttons) {
                return true;
            }
        }
        false
    }

    fn matches_keys(&self, keys: &Keys) -> (b: bool) {
        let ghost l = self.spec_list();
        for i in 0..self.len()
            invariant
                l == self@.map_values(|k: Keybind| k@),
                forall|j: int| 0 <= j < i ==> !covers_keys(#[trigger] l[j], keys@),
        {
            assert(l[i as int] == self@[i as int]@);
            if self[i].keys.contains_all(keys) {
                return true;
            }
        }
        false
    }
}

} // verus!
