use vstd::prelude::*;

verus! {

/// A physical key. The named keys are those that key bindings can name;
/// every other key is `Other`, carrying a code chosen by the platform layer.
#[derive(Debug, Clone, Copy, PartialEq, Eq, Structural)]
pub enum KeyCode {
    ControlLeft,
    ControlRight,
    ShiftLeft,
    ShiftRight,
    AltLeft,
    AltRight,
    SuperLeft,
    SuperRight,
    KeyA,
    KeyB,
    KeyC,
    KeyD,
    KeyE,
    KeyF,
    KeyG,
    KeyH,
    KeyI,
    KeyJ,
    KeyK,
    KeyL,
    KeyM,
    KeyN,
    KeyO,
    KeyP,
    KeyQ,
    KeyR,
    KeyS,
    KeyT,
    KeyU,
    KeyV,
    KeyW,
    KeyX,
    KeyY,
    KeyZ,
    Digit0,
    Digit1,
    Digit2,
    Digit3,
    Digit4,
    Digit5,
    Digit6,
    Digit7,
    Digit8,
    Digit9,
    Space,
    Enter,
    Tab,
    Escape,
    Backspace,
    Delete,
    ArrowUp,
    ArrowDown,
    ArrowLeft,
    ArrowRight,
    F1,
    F2,
    F3,
    F4,
    F5,
    F6,
    F7,
    F8,
    F9,
    F10,
    F11,
    F12,
    Other(u32),
}

/// A mouse button.
#[derive(Debug, Clone, Copy, PartialEq, Eq, Structural)]
pub enum MouseButton {
    Left,
    Right,
    Middle,
    Button4,
    Button5,
}

/// `s` without the elements equal to `x`, the others in order.
pub open spec fn without<T>(s: Seq<T>, x: T) -> Seq<T>
    decreases s.len(),
{
    if s.len() == 0 {
        s
    } else if s.last() == x {
        without(s.drop_last(), x)
    } else {
        without(s.drop_last(), x).push(s.last())
    }
}

/// What `without` keeps: everything but `x`.
pub proof fn lemma_without_contains<T>(s: Seq<T>, x: T)
    ensures
        !without(s, x).contains(x),
        forall|y: T| y != x ==> (without(s, x).contains(y) <==> s.contains(y)),
    decreases s.len(),
{
    if s.len() > 0 {
        let d = s.drop_last();
        lemma_without_contains(d, x);
        let r = without(d, x);
        let w = without(s, x);
        assert forall|y: T| y != x implies (w.contains(y) <==> s.contains(y)) by {
            if w.contains(y) {
                let i = choose|i: int| 0 <= i < w.len() && w[i] == y;
                if i < r.len() {
                    assert(r[i] == y);
                    assert(r.contains(y));
                    assert(d.contains(y));
                    let k = choose|k: int| 0 <= k < d.len() && d[k] == y;
                    assert(s[k] == y);
                } else {
                    assert(s[s.len() - 1] == y);
                }
            }
            if s.contains(y) {
                let k = choose|k: int| 0 <= k < s.len() && s[k] == y;
                if k < s.len() - 1 {
                    assert(d[k] == y);
                    assert(d.contains(y));
                    assert(r.contains(y));
                    let i = choose|i: int| 0 <= i < r.len() && r[i] == y;
                    if s.last() != x {
                        assert(w[i] == y);
                    } else {
                        assert(w[i] == y);
                    }
                } else {
                    assert(s.last() == y);
                    assert(w[w.len() - 1] == y);
                }
            }
        }
        assert(!w.contains(x)) by {
            if w.contains(x) {
                let i = choose|i: int| 0 <= i < w.len() && w[i] == x;
                if i < r.len() {
                    assert(r[i] == x);
                    assert(r.contains(x));
                }
            }
        }
    }
}

/// `s` holds no element twice.
pub open spec fn no_duplicates<T>(s: Seq<T>) -> bool {
    forall|i: int, j: int| 0 <= i < j < s.len() ==> s[i] != s[j]
}

/// A set of keys, kept in the order in which they were added.
#[derive(Debug)]
pub struct Keys {
    items: Vec<KeyCode>,
}

impl View for Keys {
    type V = Seq<KeyCode>;

    closed spec fn view(&self) -> Seq<KeyCode> {
        self.items@
    }
}

impl Clone for Keys {
    fn clone(&self) -> (c: Self)
        ensures
            c@ == self@,
    {
        proof {
            use_type_invariant(self);
        }
        Keys { items: self.copy_items() }
    }
}

impl Keys {

    /// Removes `key` if present; the others keep their order.
    pub fn remove(&mut self, key: &KeyCode)
        ensures
            final(self)@ == without(old(self)@, *key),
            !final(self)@.contains(*key),
            forall|x: KeyCode| x != *key ==> (final(self)@.contains(x) <==> old(self)@.contains(x)),
    {
        proof {
            use_type_invariant(&*self);
        }
        let ghost items = self.items@;
        let mut v: Vec<KeyCode> = Vec::new();
        let n = self.items.len();
        let mut i: usize = 0;
        while i < n
            invariant
                n == items.len(),
                items == self.items@,
                no_duplicates(items),
                i <= n,
                v@ == without(items.subrange(0, i as int), *key),
                no_duplicates(v@),
                forall|j: int| 0 <= j < v@.len() ==> exists|k: int| 0 <= k < i && items[k] == #[trigger] v@[j],
            decreases n - i,
        {
            let x = self.items[i];
            assert(items.subrange(0, i + 1).drop_last() =~= items.subrange(0, i as int));
            if x != *key {
                let ghost before = v@;
                v.push(x);
                assert(no_duplicates(v@)) by {
                    assert forall|a: int, b: int| 0 <= a < b < v@.len() implies v@[a] != v@[b] by {
                        if b == before.len() {
                            let k = choose|k: int| 0 <= k < i && items[k] == #[trigger] before[a];
                            assert(items[k] != items[i as int]);
                        }
                    }
                }
                assert forall|j: int| 0 <= j < v@.len() implies exists|k: int| 0 <= k < i + 1 && items[k] == #[trigger] v@[j] by {
                    if j < before.len() {
                        let k = choose|k: int| 0 <= k < i && items[k] == #[trigger] before[j];
                        assert(items[k] == v@[j]);
                    } else {
                        assert(items[i as int] == v@[j]);
                    }
                }
            }
            i = i + 1;
        }
        assert(items.subrange(0, n as int) =~= items);
        proof {
            lemma_without_contains(items, *key);
        }
        self.items = v;
    }

    #[verifier::type_invariant]
    closed spec fn wf(self) -> bool {
        no_duplicates(self.items@)
    }

    /// The empty set of keys.
    pub fn new() -> (k: Keys)
        ensures
            k@ == Seq::<KeyCode>::empty(),
    {
        Keys { items: Vec::new() }
    }

    /// The keys in the order in which they were added.
    pub fn as_slice(&self) -> (s: &[KeyCode])
        ensures
            s@ == self@,
            no_duplicates(s@),
    {
        proof {
            use_type_invariant(self);
        }
        self.items.as_slice()
    }

    pub fn len(&self) -> (n: usize)
        ensures
            n == self@.len(),
    {
        self.items.len()
    }

    /// Whether `key` is in the set.
    pub fn contains(&self, key: &KeyCode) -> (b: bool)
        ensures
            b == self@.contains(*key),
    {
        let mut i: usize = 0;
        while i < self.items.len()
            invariant
                i <= self.items@.len(),
                forall|j: int| 0 <= j < i ==> self.items@[j] != *key,
            decreases self.items@.len() - i,
        {
            if self.items[i] == *key {
                return true;
            }
            i = i + 1;
        }
        false
    }

    /// Adds `key` unless it is already present; a new key goes last.
    pub fn add(&mut self, key: &KeyCode)
        ensures
            old(self)@.contains(*key) ==> final(self)@ == old(self)@,
            !old(self)@.contains(*key) ==> final(self)@ == old(self)@.push(*key),
            no_duplicates(final(self)@),
    {
        proof {
            use_type_invariant(&*self);
        }
        if !self.contains(key) {
            let ghost before = self.items@;
            let mut items = self.copy_items();
            items.push(*key);
            assert(no_duplicates(items@)) by {
                assert forall|i: int, j: int| 0 <= i < j < items@.len() implies items@[i]
                    != items@[j] by {
                    if j == before.len() {
                        assert(before.contains(before[i]));
                    }
                }
            }
            *self = Keys { items };
        }
        proof {
            use_type_invariant(&*self);
        }
    }

    fn copy_items(&self) -> (v: Vec<KeyCode>)
        ensures
            v@ == self.items@,
    {
        let mut v: Vec<KeyCode> = Vec::new();
        for i in 0..self.items.len()
            invariant
                v@ == self.items@.subrange(0, i as int),
        {
            v.push(self.items[i]);
            assert(v@ == self.items@.subrange(0, i + 1));
        }
        assert(self.items@.subrange(0, self.items@.len() as int) == self.items@);
        v
    }

    /// Whether at least one key is in the set.
    pub fn any(&self) -> (b: bool)
        ensures
            b == (self@.len() > 0),
    {
        self.items.len() > 0
    }

    /// Whether every key of `other` is also in `self`.
    pub fn contains_all(&self, other: &Keys) -> (b: bool)
        ensures
            b == (forall|k: KeyCode| other@.contains(k) ==> self@.contains(k)),
    {
        let mut i: usize = 0;
        while i < other.items.len()
            invariant
                i <= other.items@.len(),
                forall|j: int| 0 <= j < i ==> self@.contains(#[trigger] other.items@[j]),
            decreases other.items@.len() - i,
        {
            if !self.contains(&other.items[i]) {
                assert(other@.contains(other.items@[i as int]));
                return false;
            }
            i = i + 1;
        }
        assert forall|k: KeyCode| other@.contains(k) implies self@.contains(k) by {
            let j = choose|j: int| 0 <= j < other.items@.len() && other.items@[j] == k;
        }
        true
    }

    /// Whether the two sets hold the same keys.
    pub fn matches(&self, other: &Keys) -> (b: bool)
        ensures
            b == (self@.to_set() == other@.to_set()),
    {
        let a = self.contains_all(other);
        let c = other.contains_all(self);
        proof {
            if a && c {
                assert(self@.to_set() =~= other@.to_set());
            }
            if self@.to_set() == other@.to_set() {
                assert forall|k: KeyCode| other@.contains(k) implies self@.contains(k) by {
                    assert(other@.to_set().contains(k));
                }
                assert forall|k: KeyCode| self@.contains(k) implies other@.contains(k) by {
                    assert(self@.to_set().contains(k));
                }
            }
        }
        a && c
    }
}

/// A set of mouse buttons, kept in the order in which they were added.
#[derive(Debug)]
pub struct MouseButtons {
    items: Vec<MouseButton>,
}

impl View for MouseButtons {
    type V = Seq<MouseButton>;

    closed spec fn view(&self) -> Seq<MouseButton> {
        self.items@
    }
}

impl Clone for MouseButtons {
    fn clone(&self) -> (c: Self)
        ensures
            c@ == self@,
    {
        proof {
            use_type_invariant(self);
        }
        MouseButtons { items: self.copy_items() }
    }
}

impl MouseButtons {

    /// Removes `button` if present; the others keep their order.
    pub fn remove(&mut self, button: &MouseButton)
        ensures
            final(self)@ == without(old(self)@, *button),
            !final(self)@.contains(*button),
            forall|x: MouseButton| x != *button ==> (final(self)@.contains(x) <==> old(self)@.contains(x)),
    {
        proof {
            use_type_invariant(&*self);
        }
        let ghost items = self.items@;
        let mut v: Vec<MouseButton> = Vec::new();
        let n = self.items.len();
        let mut i: usize = 0;
        while i < n
            invariant
                n == items.len(),
                items == self.items@,
                no_duplicates(items),
                i <= n,
                v@ == without(items.subrange(0, i as int), *button),
                no_duplicates(v@),
                forall|j: int| 0 <= j < v@.len() ==> exists|k: int| 0 <= k < i && items[k] == #[trigger] v@[j],
            decreases n - i,
        {
            let x = self.items[i];
            assert(items.subrange(0, i + 1).drop_last() =~= items.subrange(0, i as int));
            if x != *button {
                let ghost before = v@;
                v.push(x);
                assert(no_duplicates(v@)) by {
                    assert forall|a: int, b: int| 0 <= a < b < v@.len() implies v@[a] != v@[b] by {
                        if b == before.len() {
                            let k = choose|k: int| 0 <= k < i && items[k] == #[trigger] before[a];
                            assert(items[k] != items[i as int]);
                        }
                    }
                }
                assert forall|j: int| 0 <= j < v@.len() implies exists|k: int| 0 <= k < i + 1 && items[k] == #[trigger] v@[j] by {
                    if j < before.len() {
                        let k = choose|k: int| 0 <= k < i && items[k] == #[trigger] before[j];
                        assert(items[k] == v@[j]);
                    } else {
                        assert(items[i as int] == v@[j]);
                    }
                }
            }
            i = i + 1;
        }
        assert(items.subrange(0, n as int) =~= items);
        proof {
            lemma_without_contains(items, *button);
        }
        self.items = v;
    }

    #[verifier::type_invariant]
    closed spec fn wf(self) -> bool {
        no_duplicates(self.items@)
    }

    /// The empty set of buttons.
    pub fn new() -> (k: MouseButtons)
        ensures
            k@ == Seq::<MouseButton>::empty(),
    {
        MouseButtons { items: Vec::new() }
    }

    /// The buttons in the order in which they were added.
    pub fn as_slice(&self) -> (s: &[MouseButton])
        ensures
            s@ == self@,
            no_duplicates(s@),
    {
        proof {
            use_type_invariant(self);
        }
        self.items.as_slice()
    }

    pub fn len(&self) -> (n: usize)
        ensures
            n == self@.len(),
    {
        self.items.len()
    }

    /// Whether `button` is in the set.
    pub fn contains(&self, button: &MouseButton) -> (b: bool)
        ensures
            b == self@.contains(*button),
    {
        let mut i: usize = 0;
        while i < self.items.len()
            invariant
                i <= self.items@.len(),
                forall|j: int| 0 <= j < i ==> self.items@[j] != *button,
            decreases self.items@.len() - i,
        {
            if self.items[i] == *button {
                return true;
            }
            i = i + 1;
        }
        false
    }

    /// Adds `button` unless it is already present; a new button goes last.
    pub fn add(&mut self, button: &MouseButton)
        ensures
            old(self)@.contains(*button) ==> final(self)@ == old(self)@,
            !old(self)@.contains(*button) ==> final(self)@ == old(self)@.push(*button),
            no_duplicates(final(self)@),
    {
        proof {
            use_type_invariant(&*self);
        }
        if !self.contains(button) {
            let ghost before = self.items@;
            let mut items = self.copy_items();
            items.push(*button);
            assert(no_duplicates(items@)) by {
                assert forall|i: int, j: int| 0 <= i < j < items@.len() implies items@[i]
                    != items@[j] by {
                    if j == before.len() {
                        assert(before.contains(before[i]));
                    }
                }
            }
            *self = MouseButtons { items };
        }
        proof {
            use_type_invariant(&*self);
        }
    }

    fn copy_items(&self) -> (v: Vec<MouseButton>)
        ensures
            v@ == self.items@,
    {
        let mut v: Vec<MouseButton> = Vec::new();
        for i in 0..self.items.len()
            invariant
                v@ == self.items@.subrange(0, i as int),
        {
            v.push(self.items[i]);
            assert(v@ == self.items@.subrange(0, i + 1));
        }
        assert(self.items@.subrange(0, self.items@.len() as int) == self.items@);
        v
    }

    /// Whether at least one button is in the set.
    pub fn any(&self) -> (b: bool)
        ensures
            b == (self@.len() > 0),
    {
        self.items.len() > 0
    }

    /// Whether every button of `other` is also in `self`.
    pub fn contains_all(&self, other: &MouseButtons) -> (b: bool)
        ensures
            b == (forall|k: MouseButton| other@.contains(k) ==> self@.contains(k)),
    {
        let mut i: usize = 0;
        while i < other.items.len()
            invariant
                i <= other.items@.len(),
                forall|j: int| 0 <= j < i ==> self@.contains(#[trigger] other.items@[j]),
            decreases other.items@.len() - i,
        {
            if !self.contains(&other.items[i]) {
                assert(other@.contains(other.items@[i as int]));
                return false;
            }
            i = i + 1;
        }
        assert forall|k: MouseButton| other@.contains(k) implies self@.contains(k) by {
            let j = choose|j: int| 0 <= j < other.items@.len() && other.items@[j] == k;
        }
        true
    }

    /// Whether the two sets hold the same buttons.
    pub fn matches(&self, other: &MouseButtons) -> (b: bool)
        ensures
            b == (self@.to_set() == other@.to_set()),
    {
        let a = self.contains_all(other);
        let c = other.contains_all(self);
        proof {
            if a && c {
                assert(self@.to_set() =~= other@.to_set());
            }
            if self@.to_set() == other@.to_set() {
                assert forall|k: MouseButton| other@.contains(k) implies self@.contains(k) by {
                    assert(other@.to_set().contains(k));
                }
                assert forall|k: MouseButton| self@.contains(k) implies other@.contains(k) by {
                    assert(self@.to_set().contains(k));
                }
            }
        }
        a && c
    }
}


/// Adding an element that is already present changes nothing, and adding the
/// same element twice is the same as adding it once: the held keys and
/// buttons behave as sets.
pub proof fn lemma_add_twice<T>(s: Seq<T>, x: T)
    ensures
        ({
            let once = if s.contains(x) { s } else { s.push(x) };
            let twice = if once.contains(x) { once } else { once.push(x) };
            &&& once.contains(x)
            &&& twice == once
            &&& forall|y: T| s.contains(y) ==> once.contains(y)
        }),
{
    let once = if s.contains(x) { s } else { s.push(x) };
    if !s.contains(x) {
        assert(once[s.len() as int] == x);
        assert forall|y: T| s.contains(y) implies once.contains(y) by {
            let i = choose|i: int| 0 <= i < s.len() && s[i] == y;
            assert(once[i] == y);
        }
    }
}

} // verus!
