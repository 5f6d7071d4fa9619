use vstd::prelude::*;
use crate::config::input_combo::{
    apply_parts, combo_words, lemma_key_name_parses, lemma_no_upper_matches_itself, no_upper, plain_key_names,
    push_if, spec_key_name, spec_parse, spec_token, ComboToken, ComboView,
};
use crate::input::{KeyCode, MouseButton};
use crate::text::{join, lemma_split_on_nonempty, split_on, trim, trim_end, trim_start};

verus! {

/// The words of a combo string that stand for modifiers and buttons read back
/// as what they were written for.
proof fn lemma_word_tokens()
    ensures
        spec_token("ctrl"@) == ComboToken::Key(KeyCode::ControlLeft),
        spec_token("shift"@) == ComboToken::Key(KeyCode::ShiftLeft),
        spec_token("alt"@) == ComboToken::Key(KeyCode::AltLeft),
        spec_token("cmd"@) == ComboToken::Key(KeyCode::SuperLeft),
        spec_token("lmb"@) == ComboToken::Button(MouseButton::Left),
        spec_token("rmb"@) == ComboToken::Button(MouseButton::Right),
        spec_token("mmb"@) == ComboToken::Button(MouseButton::Middle),
        spec_token("back"@) == ComboToken::Button(MouseButton::Button4),
        spec_token("forward"@) == ComboToken::Button(MouseButton::Button5),
{
    reveal_strlit("ctrl");
    reveal_strlit("shift");
    reveal_strlit("alt");
    reveal_strlit("super");
    reveal_strlit("win");
    reveal_strlit("cmd");
    reveal_strlit("lmb");
    reveal_strlit("rmb");
    reveal_strlit("mmb");
    reveal_strlit("bmb");
    reveal_strlit("button4");
    reveal_strlit("back");
    reveal_strlit("fmb");
    reveal_strlit("button5");
    reveal_strlit("forward");
    reveal_with_fuel(no_upper, 10);
    reveal_with_fuel(trim_start, 2);
    reveal_with_fuel(trim_end, 2);
    lemma_no_upper_matches_itself("ctrl"@);
    lemma_no_upper_matches_itself("shift"@);
    lemma_no_upper_matches_itself("alt"@);
    lemma_no_upper_matches_itself("cmd"@);
    lemma_no_upper_matches_itself("lmb"@);
    lemma_no_upper_matches_itself("rmb"@);
    lemma_no_upper_matches_itself("mmb"@);
    lemma_no_upper_matches_itself("back"@);
    lemma_no_upper_matches_itself("forward"@);
}

/// The name a combo string uses for a key reads back as that key.
#[verifier::rlimit(50)]
proof fn lemma_key_name_token(k: KeyCode)
    requires
        spec_key_name(k) is Some,
    ensures
        spec_token(spec_key_name(k)->0) == ComboToken::Key(k),
{
    reveal_strlit("0");
    reveal_strlit("1");
    reveal_strlit("2");
    reveal_strlit("3");
    reveal_strlit("4");
    reveal_strlit("5");
    reveal_strlit("6");
    reveal_strlit("7");
    reveal_strlit("8");
    reveal_strlit("9");
    reveal_strlit("a");
    reveal_strlit("b");
    reveal_strlit("c");
    reveal_strlit("d");
    reveal_strlit("e");
    reveal_strlit("f");
    reveal_strlit("g");
    reveal_strlit("h");
    reveal_strlit("i");
    reveal_strlit("j");
    reveal_strlit("k");
    reveal_strlit("l");
    reveal_strlit("m");
    reveal_strlit("n");
    reveal_strlit("o");
    reveal_strlit("p");
    reveal_strlit("q");
    reveal_strlit("r");
    reveal_strlit("s");
    reveal_strlit("t");
    reveal_strlit("u");
    reveal_strlit("v");
    reveal_strlit("w");
    reveal_strlit("x");
    reveal_strlit("y");
    reveal_strlit("z");
    reveal_strlit("space");
    reveal_strlit("enter");
    reveal_strlit("tab");
    reveal_strlit("escape");
    reveal_strlit("backspace");
    reveal_strlit("delete");
    reveal_strlit("up");
    reveal_strlit("down");
    reveal_strlit("left");
    reveal_strlit("right");
    reveal_strlit("f1");
    reveal_strlit("f2");
    reveal_strlit("f3");
    reveal_strlit("f4");
    reveal_strlit("f5");
    reveal_strlit("f6");
    reveal_strlit("f7");
    reveal_strlit("f8");
    reveal_strlit("f9");
    reveal_strlit("f10");
    reveal_strlit("f11");
    reveal_strlit("f12");
    reveal_strlit("ctrl");
    reveal_strlit("shift");
    reveal_strlit("alt");
    reveal_strlit("super");
    reveal_strlit("win");
    reveal_strlit("cmd");
    reveal_strlit("lmb");
    reveal_strlit("rmb");
    reveal_strlit("mmb");
    reveal_strlit("bmb");
    reveal_strlit("button4");
    reveal_strlit("back");
    reveal_strlit("fmb");
    reveal_strlit("button5");
    reveal_strlit("forward");
    reveal_with_fuel(trim_start, 2);
    reveal_with_fuel(trim_end, 2);
    lemma_key_name_parses(k);
    let w = spec_key_name(k)->0;
    assert(trim(w) == w);
}

proof fn lemma_split_append(a: Seq<char>, b: Seq<char>)
    requires
        !b.contains('+'),
    ensures
        split_on(a + b, '+') == split_on(a, '+').update(
            split_on(a, '+').len() - 1,
            split_on(a, '+').last() + b,
        ),
    decreases b.len(),
{
    lemma_split_on_nonempty(a, '+');
    let p = split_on(a, '+');
    if b.len() == 0 {
        assert(a + b =~= a);
        assert(p.last() + b =~= p.last());
        assert(p.update(p.len() - 1, p.last()) =~= p);
    } else {
        let b2 = b.drop_last();
        assert(!b2.contains('+')) by {
            if b2.contains('+') {
                let j = choose|j: int| 0 <= j < b2.len() && b2[j] == '+';
                assert(b[j] == '+');
            }
        }
        lemma_split_append(a, b2);
        assert((a + b).drop_last() =~= a + b2);
        assert((a + b).last() == b.last());
        assert(b.last() != '+') by {
            assert(b[b.len() - 1] == b.last());
        }
        lemma_split_on_nonempty(a + b2, '+');
        let q = split_on(a + b2, '+');
        assert(q.last() == p.last() + b2);
        assert(q.last().push(b.last()) =~= p.last() + b);
        assert(q.update(q.len() - 1, q.last().push(b.last())) =~= p.update(p.len() - 1, p.last() + b));
    }
}

/// Cutting words joined with `+` at every `+` gives the words back, when no
/// word holds a `+`.
proof fn lemma_split_join(ws: Seq<Seq<char>>)
    requires
        ws.len() >= 1,
        forall|i: int| 0 <= i < ws.len() ==> !(#[trigger] ws[i]).contains('+'),
    ensures
        split_on(join(ws, "+"@), '+') == ws,
    decreases ws.len(),
{
    reveal_strlit("+");
    if ws.len() == 1 {
        lemma_split_append(Seq::empty(), ws[0]);
        assert(Seq::<char>::empty() + ws[0] =~= ws[0]);
        assert(split_on(Seq::<char>::empty(), '+') == seq![Seq::<char>::empty()]);
        assert(seq![Seq::<char>::empty()].update(0, Seq::<char>::empty() + ws[0]) =~= ws);
    } else {
        let init = ws.drop_last();
        lemma_split_join(init);
        let j = join(init, "+"@);
        let a = j + "+"@;
        assert(split_on(a, '+') =~= init.push(Seq::empty())) by {
            assert(a.drop_last() =~= j);
        }
        lemma_split_append(a, ws.last());
        assert(Seq::<char>::empty() + ws.last() =~= ws.last());
        assert(init.push(Seq::empty()).update(init.len() as int, ws.last()) =~= ws);
    }
}

/// The keys that the words of a combo string name.
pub open spec fn keys_of_words(ws: Seq<Seq<char>>) -> Set<KeyCode>
    decreases ws.len(),
{
    if ws.len() == 0 {
        Set::empty()
    } else {
        let rest = keys_of_words(ws.drop_last());
        match spec_token(ws.last()) {
            ComboToken::Key(k) => rest.insert(k),
            _ => rest,
        }
    }
}

/// The mouse buttons that the words of a combo string name.
pub open spec fn buttons_of_words(ws: Seq<Seq<char>>) -> Set<MouseButton>
    decreases ws.len(),
{
    if ws.len() == 0 {
        Set::empty()
    } else {
        let rest = buttons_of_words(ws.drop_last());
        match spec_token(ws.last()) {
            ComboToken::Button(b) => rest.insert(b),
            _ => rest,
        }
    }
}

proof fn lemma_seq_add_set<T>(s: Seq<T>, x: T)
    ensures
        crate::config::input_combo::seq_add(s, x).to_set() == s.to_set().insert(x),
{
    if s.contains(x) {
        assert(s.to_set().insert(x) =~= s.to_set());
    } else {
        assert(s.push(x).to_set() =~= s.to_set().insert(x)) by {
            assert forall|y: T| s.push(x).to_set().contains(y) <==> s.to_set().insert(x).contains(y) by {
                if s.push(x).contains(y) {
                    let j = choose|j: int| 0 <= j < s.push(x).len() && s.push(x)[j] == y;
                    if j < s.len() {
                        assert(s[j] == y);
                    }
                }
                if s.contains(y) {
                    let j = choose|j: int| 0 <= j < s.len() && s[j] == y;
                    assert(s.push(x)[j] == y);
                }
                if y == x {
                    assert(s.push(x)[s.len() as int] == x);
                }
            }
        }
    }
}

/// Reading words one after another collects exactly the keys and buttons they name.
proof fn lemma_apply_parts_sets(ws: Seq<Seq<char>>)
    ensures
        apply_parts(ws).0.to_set() == keys_of_words(ws),
        apply_parts(ws).1.to_set() == buttons_of_words(ws),
    decreases ws.len(),
{
    if ws.len() == 0 {
        assert(Seq::<KeyCode>::empty().to_set() =~= Set::empty());
        assert(Seq::<MouseButton>::empty().to_set() =~= Set::empty());
    } else {
        lemma_apply_parts_sets(ws.drop_last());
        let c = apply_parts(ws.drop_last());
        match spec_token(ws.last()) {
            ComboToken::Key(k) => {
                lemma_seq_add_set(c.0, k);
            },
            ComboToken::Button(b) => {
                lemma_seq_add_set(c.1, b);
            },
            ComboToken::Ignored => {},
        }
    }
}

proof fn lemma_words_append(a: Seq<Seq<char>>, b: Seq<Seq<char>>)
    ensures
        keys_of_words(a + b) == keys_of_words(a).union(keys_of_words(b)),
        buttons_of_words(a + b) == buttons_of_words(a).union(buttons_of_words(b)),
    decreases b.len(),
{
    if b.len() == 0 {
        assert(a + b =~= a);
        assert(keys_of_words(a).union(Set::empty()) =~= keys_of_words(a));
        assert(buttons_of_words(a).union(Set::empty()) =~= buttons_of_words(a));
    } else {
        lemma_words_append(a, b.drop_last());
        assert((a + b).drop_last() =~= a + b.drop_last());
        assert((a + b).last() == b.last());
        assert(keys_of_words(a + b) =~= keys_of_words(a).union(keys_of_words(b)));
        assert(buttons_of_words(a + b) =~= buttons_of_words(a).union(buttons_of_words(b)));
    }
}

/// No character of `s` is `+`.
pub open spec fn lacks_plus(s: Seq<char>) -> bool
    decreases s.len(),
{
    s.len() == 0 || (s[0] != '+' && lacks_plus(s.drop_first()))
}

proof fn lemma_lacks_plus(s: Seq<char>)
    requires
        lacks_plus(s),
    ensures
        !s.contains('+'),
    decreases s.len(),
{
    if s.len() > 0 {
        lemma_lacks_plus(s.drop_first());
        if s.contains('+') {
            let j = choose|j: int| 0 <= j < s.len() && s[j] == '+';
            if j > 0 {
                assert(s.drop_first()[j - 1] == '+');
            }
        }
    }
}

/// The name of a key holds no `+`.
proof fn lemma_key_name_lacks_plus(k: KeyCode)
    requires
        spec_key_name(k) is Some,
    ensures
        !(spec_key_name(k)->0).contains('+'),
{
    reveal_strlit("0");
    reveal_strlit("1");
    reveal_strlit("2");
    reveal_strlit("3");
    reveal_strlit("4");
    reveal_strlit("5");
    reveal_strlit("6");
    reveal_strlit("7");
    reveal_strlit("8");
    reveal_strlit("9");
    reveal_strlit("a");
    reveal_strlit("b");
    reveal_strlit("c");
    reveal_strlit("d");
    reveal_strlit("e");
    reveal_strlit("f");
    reveal_strlit("g");
    reveal_strlit("h");
    reveal_strlit("i");
    reveal_strlit("j");
    reveal_strlit("k");
    reveal_strlit("l");
    reveal_strlit("m");
    reveal_strlit("n");
    reveal_strlit("o");
    reveal_strlit("p");
    reveal_strlit("q");
    reveal_strlit("r");
    reveal_strlit("s");
    reveal_strlit("t");
    reveal_strlit("u");
    reveal_strlit("v");
    reveal_strlit("w");
    reveal_strlit("x");
    reveal_strlit("y");
    reveal_strlit("z");
    reveal_strlit("space");
    reveal_strlit("enter");
    reveal_strlit("tab");
    reveal_strlit("escape");
    reveal_strlit("backspace");
    reveal_strlit("delete");
    reveal_strlit("up");
    reveal_strlit("down");
    reveal_strlit("left");
    reveal_strlit("right");
    reveal_strlit("f1");
    reveal_strlit("f2");
    reveal_strlit("f3");
    reveal_strlit("f4");
    reveal_strlit("f5");
    reveal_strlit("f6");
    reveal_strlit("f7");
    reveal_strlit("f8");
    reveal_strlit("f9");
    reveal_strlit("f10");
    reveal_strlit("f11");
    reveal_strlit("f12");
    reveal_with_fuel(lacks_plus, 10);
    assert(lacks_plus(spec_key_name(k)->0));
    lemma_lacks_plus(spec_key_name(k)->0);
}

/// The words for modifiers and buttons hold no `+`.
proof fn lemma_words_lack_plus()
    ensures
        !"ctrl"@.contains('+'),
        !"shift"@.contains('+'),
        !"alt"@.contains('+'),
        !"cmd"@.contains('+'),
        !"lmb"@.contains('+'),
        !"rmb"@.contains('+'),
        !"mmb"@.contains('+'),
        !"back"@.contains('+'),
        !"forward"@.contains('+'),
{
    reveal_strlit("ctrl");
    reveal_strlit("shift");
    reveal_strlit("alt");
    reveal_strlit("cmd");
    reveal_strlit("lmb");
    reveal_strlit("rmb");
    reveal_strlit("mmb");
    reveal_strlit("back");
    reveal_strlit("forward");
    reveal_with_fuel(lacks_plus, 10);
    lemma_lacks_plus("ctrl"@);
    lemma_lacks_plus("shift"@);
    lemma_lacks_plus("alt"@);
    lemma_lacks_plus("cmd"@);
    lemma_lacks_plus("lmb"@);
    lemma_lacks_plus("rmb"@);
    lemma_lacks_plus("mmb"@);
    lemma_lacks_plus("back"@);
    lemma_lacks_plus("forward"@);
}

/// An empty part names nothing.
#[verifier::rlimit(50)]
proof fn lemma_empty_token()
    ensures
        spec_token(Seq::empty()) == ComboToken::Ignored,
{
    reveal_strlit("0");
    reveal_strlit("1");
    reveal_strlit("2");
    reveal_strlit("3");
    reveal_strlit("4");
    reveal_strlit("5");
    reveal_strlit("6");
    reveal_strlit("7");
    reveal_strlit("8");
    reveal_strlit("9");
    reveal_strlit("a");
    reveal_strlit("arrowdown");
    reveal_strlit("arrowleft");
    reveal_strlit("arrowright");
    reveal_strlit("arrowup");
    reveal_strlit("b");
    reveal_strlit("backspace");
    reveal_strlit("c");
    reveal_strlit("d");
    reveal_strlit("delete");
    reveal_strlit("down");
    reveal_strlit("e");
    reveal_strlit("enter");
    reveal_strlit("esc");
    reveal_strlit("escape");
    reveal_strlit("f");
    reveal_strlit("f1");
    reveal_strlit("f10");
    reveal_strlit("f11");
    reveal_strlit("f12");
    reveal_strlit("f2");
    reveal_strlit("f3");
    reveal_strlit("f4");
    reveal_strlit("f5");
    reveal_strlit("f6");
    reveal_strlit("f7");
    reveal_strlit("f8");
    reveal_strlit("f9");
    reveal_strlit("g");
    reveal_strlit("h");
    reveal_strlit("i");
    reveal_strlit("j");
    reveal_strlit("k");
    reveal_strlit("l");
    reveal_strlit("left");
    reveal_strlit("m");
    reveal_strlit("n");
    reveal_strlit("o");
    reveal_strlit("p");
    reveal_strlit("q");
    reveal_strlit("r");
    reveal_strlit("return");
    reveal_strlit("right");
    reveal_strlit("s");
    reveal_strlit("space");
    reveal_strlit("t");
    reveal_strlit("tab");
    reveal_strlit("u");
    reveal_strlit("up");
    reveal_strlit("v");
    reveal_strlit("w");
    reveal_strlit("x");
    reveal_strlit("y");
    reveal_strlit("z");
    reveal_strlit("ctrl");
    reveal_strlit("shift");
    reveal_strlit("alt");
    reveal_strlit("super");
    reveal_strlit("win");
    reveal_strlit("cmd");
    reveal_strlit("lmb");
    reveal_strlit("rmb");
    reveal_strlit("mmb");
    reveal_strlit("bmb");
    reveal_strlit("button4");
    reveal_strlit("back");
    reveal_strlit("fmb");
    reveal_strlit("button5");
    reveal_strlit("forward");
    assert(trim(Seq::<char>::empty()) =~= Seq::<char>::empty());
}

proof fn lemma_push_word(s: Seq<Seq<char>>, w: Seq<char>)
    ensures
        keys_of_words(s.push(w)) == match spec_token(w) {
            ComboToken::Key(k) => keys_of_words(s).insert(k),
            _ => keys_of_words(s),
        },
        buttons_of_words(s.push(w)) == match spec_token(w) {
            ComboToken::Button(b) => buttons_of_words(s).insert(b),
            _ => buttons_of_words(s),
        },
{
    assert(s.push(w).drop_last() =~= s);
}

/// The names of the keys of `keys` that are written by name name exactly those keys.
proof fn lemma_plain_names(keys: Seq<KeyCode>)
    ensures
        keys_of_words(plain_key_names(keys)) == keys.to_set().filter(
            |k: KeyCode| spec_key_name(k) is Some,
        ),
        buttons_of_words(plain_key_names(keys)) == Set::<MouseButton>::empty(),
        forall|i: int|
            0 <= i < plain_key_names(keys).len() ==> !(
            #[trigger] plain_key_names(keys)[i]).contains('+'),
    decreases keys.len(),
{
    if keys.len() == 0 {
        assert(keys.to_set().filter(|k: KeyCode| spec_key_name(k) is Some) =~= Set::empty());
    } else {
        let init = keys.drop_last();
        let k = keys.last();
        lemma_plain_names(init);
        let rest = plain_key_names(init);
        assert(keys =~= init.push(k));
        assert(keys.to_set() =~= init.to_set().insert(k)) by {
            assert forall|y: KeyCode| keys.to_set().contains(y) <==> init.to_set().insert(k).contains(y) by {
                if keys.contains(y) {
                    let j = choose|j: int| 0 <= j < keys.len() && keys[j] == y;
                    if j < init.len() {
                        assert(init[j] == y);
                    }
                }
                if init.contains(y) {
                    let j = choose|j: int| 0 <= j < init.len() && init[j] == y;
                    assert(keys[j] == y);
                }
                if y == k {
                    assert(keys[keys.len() - 1] == k);
                }
            }
        }
        if spec_key_name(k) is Some {
            lemma_key_name_token(k);
            lemma_key_name_lacks_plus(k);
            lemma_push_word(rest, spec_key_name(k)->0);
            assert(keys_of_words(plain_key_names(keys)) =~= keys.to_set().filter(
                |x: KeyCode| spec_key_name(x) is Some,
            ));
            let p = plain_key_names(keys);
            assert(p == rest.push(spec_key_name(k)->0));
            assert forall|i: int| 0 <= i < p.len() implies !(#[trigger] p[i]).contains('+') by {
                if i < rest.len() {
                    assert(p[i] == rest[i]);
                }
            }
        } else {
            assert(keys.to_set().filter(|x: KeyCode| spec_key_name(x) is Some) =~= init.to_set().filter(
                |x: KeyCode| spec_key_name(x) is Some,
            ));
        }
    }
}

/// Whether a combo string can name every key of `c`: each is a left-hand
/// modifier or a key with a name.
pub open spec fn writable(c: ComboView) -> bool {
    forall|i: int|
        0 <= i < c.0.len() ==> {
            let k = #[trigger] c.0[i];
            k == KeyCode::ControlLeft || k == KeyCode::ShiftLeft || k == KeyCode::AltLeft || k == KeyCode::SuperLeft
                || spec_key_name(k) is Some
        }
}

proof fn lemma_push_if(s: Seq<Seq<char>>, cond: bool, w: Seq<char>)
    ensures
        keys_of_words(push_if(s, cond, w)) == if cond {
            match spec_token(w) {
                ComboToken::Key(k) => keys_of_words(s).insert(k),
                _ => keys_of_words(s),
            }
        } else {
            keys_of_words(s)
        },
        buttons_of_words(push_if(s, cond, w)) == if cond {
            match spec_token(w) {
                ComboToken::Button(b) => buttons_of_words(s).insert(b),
                _ => buttons_of_words(s),
            }
        } else {
            buttons_of_words(s)
        },
        (forall|i: int| 0 <= i < s.len() ==> !(#[trigger] s[i]).contains('+')) && !w.contains('+') ==> forall|i: int|
            0 <= i < push_if(s, cond, w).len() ==> !(#[trigger] push_if(s, cond, w)[i]).contains('+'),
{
    if cond {
        lemma_push_word(s, w);
        assert forall|i: int| 0 <= i < s.len() implies #[trigger] s.push(w)[i] == s[i] by {}
    }
}

/// The words for the left-hand modifiers of `keys`.
pub open spec fn modifier_words(keys: Seq<KeyCode>) -> Seq<Seq<char>> {
    push_if(
        push_if(
            push_if(
                push_if(Seq::empty(), keys.contains(KeyCode::ControlLeft), "ctrl"@),
                keys.contains(KeyCode::ShiftLeft),
                "shift"@,
            ),
            keys.contains(KeyCode::AltLeft),
            "alt"@,
        ),
        keys.contains(KeyCode::SuperLeft),
        "cmd"@,
    )
}

/// `k` with the words for the buttons of `buttons`.
pub open spec fn with_button_words(k: Seq<Seq<char>>, buttons: Seq<MouseButton>) -> Seq<Seq<char>> {
    push_if(
        push_if(
            push_if(
                push_if(
                    push_if(k, buttons.contains(MouseButton::Left), "lmb"@),
                    buttons.contains(MouseButton::Right),
                    "rmb"@,
                ),
                buttons.contains(MouseButton::Middle),
                "mmb"@,
            ),
            buttons.contains(MouseButton::Button4),
            "back"@,
        ),
        buttons.contains(MouseButton::Button5),
        "forward"@,
    )
}

/// Whether `k` is one of the four left-hand modifiers.
pub open spec fn is_left_modifier(k: KeyCode) -> bool {
    k == KeyCode::ControlLeft || k == KeyCode::ShiftLeft || k == KeyCode::AltLeft || k == KeyCode::SuperLeft
}

proof fn lemma_modifier_words(keys: Seq<KeyCode>)
    ensures
        keys_of_words(modifier_words(keys)) == keys.to_set().filter(|k: KeyCode| is_left_modifier(k)),
        buttons_of_words(modifier_words(keys)) == Set::<MouseButton>::empty(),
        forall|i: int| 0 <= i < modifier_words(keys).len() ==> !(#[trigger] modifier_words(keys)[i]).contains('+'),
{
    lemma_word_tokens();
    lemma_words_lack_plus();
    let e = Seq::<Seq<char>>::empty();
    let m1 = push_if(e, keys.contains(KeyCode::ControlLeft), "ctrl"@);
    let m2 = push_if(m1, keys.contains(KeyCode::ShiftLeft), "shift"@);
    let m3 = push_if(m2, keys.contains(KeyCode::AltLeft), "alt"@);
    lemma_push_if(e, keys.contains(KeyCode::ControlLeft), "ctrl"@);
    lemma_push_if(m1, keys.contains(KeyCode::ShiftLeft), "shift"@);
    lemma_push_if(m2, keys.contains(KeyCode::AltLeft), "alt"@);
    lemma_push_if(m3, keys.contains(KeyCode::SuperLeft), "cmd"@);
    assert(keys_of_words(e) =~= Set::<KeyCode>::empty());
    assert(buttons_of_words(e) =~= Set::<MouseButton>::empty());
    assert(keys_of_words(modifier_words(keys)) =~= keys.to_set().filter(|k: KeyCode| is_left_modifier(k)));
    assert(buttons_of_words(modifier_words(keys)) =~= Set::<MouseButton>::empty());
}

proof fn lemma_button_words(k: Seq<Seq<char>>, buttons: Seq<MouseButton>)
    ensures
        keys_of_words(with_button_words(k, buttons)) == keys_of_words(k),
        buttons_of_words(with_button_words(k, buttons)) == buttons_of_words(k).union(buttons.to_set()),
        (forall|i: int| 0 <= i < k.len() ==> !(#[trigger] k[i]).contains('+')) ==> forall|i: int|
            0 <= i < with_button_words(k, buttons).len() ==> !(#[trigger] with_button_words(k, buttons)[i]).contains('+'),
{
    lemma_word_tokens();
    lemma_words_lack_plus();
    let b1 = push_if(k, buttons.contains(MouseButton::Left), "lmb"@);
    let b2 = push_if(b1, buttons.contains(MouseButton::Right), "rmb"@);
    let b3 = push_if(b2, buttons.contains(MouseButton::Middle), "mmb"@);
    let b4 = push_if(b3, buttons.contains(MouseButton::Button4), "back"@);
    lemma_push_if(k, buttons.contains(MouseButton::Left), "lmb"@);
    lemma_push_if(b1, buttons.contains(MouseButton::Right), "rmb"@);
    lemma_push_if(b2, buttons.contains(MouseButton::Middle), "mmb"@);
    lemma_push_if(b3, buttons.contains(MouseButton::Button4), "back"@);
    lemma_push_if(b4, buttons.contains(MouseButton::Button5), "forward"@);
    assert(buttons_of_words(with_button_words(k, buttons)) =~= buttons_of_words(k).union(buttons.to_set())) by {
        assert forall|x: MouseButton|
            buttons_of_words(with_button_words(k, buttons)).contains(x) <==> buttons_of_words(k).union(
                buttons.to_set(),
            ).contains(x) by {
            match x {
                MouseButton::Left => {},
                MouseButton::Right => {},
                MouseButton::Middle => {},
                MouseButton::Button4 => {},
                MouseButton::Button5 => {},
            }
        }
    }
}

/// The canonical string of a combo reads back as a combo with the same keys
/// and buttons, when every key of it has a way to be written: saving a key
/// binding and loading it again keeps what it matches.
pub proof fn lemma_combo_string_round_trip(c: ComboView)
    requires
        writable(c),
    ensures
        spec_parse(join(combo_words(c), "+"@)).0.to_set() == c.0.to_set(),
        spec_parse(join(combo_words(c), "+"@)).1.to_set() == c.1.to_set(),
{
    let keys = c.0;
    let buttons = c.1;
    let m = modifier_words(keys);
    let p = plain_key_names(keys);
    let k = m + p;
    let w = with_button_words(k, buttons);
    assert(w == combo_words(c));
    lemma_modifier_words(keys);
    lemma_plain_names(keys);
    lemma_words_append(m, p);
    assert forall|i: int| 0 <= i < k.len() implies !(#[trigger] k[i]).contains('+') by {
        if i < m.len() {
            assert(k[i] == m[i]);
        } else {
            assert(k[i] == p[i - m.len()]);
        }
    }
    lemma_button_words(k, buttons);
    assert(keys_of_words(w) =~= keys.to_set()) by {
        assert forall|x: KeyCode| keys_of_words(w).contains(x) <==> keys.to_set().contains(x) by {
            if keys.contains(x) {
                let j = choose|j: int| 0 <= j < keys.len() && keys[j] == x;
                assert(is_left_modifier(keys[j]) || spec_key_name(keys[j]) is Some);
            }
        }
    }
    assert(buttons_of_words(w) =~= buttons.to_set());
    if w.len() == 0 {
        reveal_strlit("+");
        assert(join(w, "+"@) == Seq::<char>::empty());
        assert(split_on(Seq::<char>::empty(), '+') == seq![Seq::<char>::empty()]);
        lemma_empty_token();
        assert(seq![Seq::<char>::empty()].drop_last() =~= Seq::<Seq<char>>::empty());
        lemma_apply_parts_sets(seq![Seq::<char>::empty()]);
        lemma_apply_parts_sets(w);
        assert(keys_of_words(seq![Seq::<char>::empty()]) == keys_of_words(w));
    } else {
        lemma_split_join(w);
        lemma_apply_parts_sets(w);
    }
}

/// Every key that a part of a combo string names can be written back.
proof fn lemma_token_writable(part: Seq<char>)
    ensures
        spec_token(part) matches ComboToken::Key(k) ==> is_left_modifier(k) || spec_key_name(k) is Some,
{
}

proof fn lemma_parts_writable(parts: Seq<Seq<char>>)
    ensures
        writable(apply_parts(parts)),
    decreases parts.len(),
{
    if parts.len() > 0 {
        lemma_parts_writable(parts.drop_last());
        lemma_token_writable(parts.last());
        let c = apply_parts(parts.drop_last());
        match spec_token(parts.last()) {
            ComboToken::Key(k) => {
                let ks = crate::config::input_combo::seq_add(c.0, k);
                assert forall|i: int| 0 <= i < ks.len() implies {
                    let y = #[trigger] ks[i];
                    y == KeyCode::ControlLeft || y == KeyCode::ShiftLeft || y == KeyCode::AltLeft || y
                        == KeyCode::SuperLeft || spec_key_name(y) is Some
                } by {
                    if i < c.0.len() {
                        assert(ks[i] == c.0[i]);
                    }
                }
            },
            _ => {},
        }
    }
}

/// A combo read from a string can always be written back, so reading the
/// canonical string of any combo that was read gives a combo with the same
/// keys and buttons.
pub proof fn lemma_parsed_combo_round_trip(s: Seq<char>)
    ensures
        spec_parse(join(combo_words(spec_parse(s)), "+"@)).0.to_set() == spec_parse(s).0.to_set(),
        spec_parse(join(combo_words(spec_parse(s)), "+"@)).1.to_set() == spec_parse(s).1.to_set(),
{
    lemma_parts_writable(split_on(s, '+'));
    lemma_combo_string_round_trip(spec_parse(s));
}

} // verus!
