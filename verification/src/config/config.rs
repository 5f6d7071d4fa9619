use vstd::prelude::*;
use crate::config::input_combo::{spec_parse, ComboView};
use crate::commands::{get_defaults, has_name, last_default, unique_names, CommandRegistry};
use crate::config::keybind::{KeyboardKeybind, ModMouseKeybind, MouseKeybind};

verus! {

/// The combos that the strings describe, in order.
pub open spec fn parsed(strs: Seq<Seq<char>>) -> Seq<ComboView> {
    strs.map_values(|s: Seq<char>| spec_parse(s))
}

/// Mouse controls for the resize handles between tiled windows.
#[derive(Debug, Clone)]
pub struct ResizeHandleBindings {
    /// Resize the window on the left or top side of the handle.
    pub resize_before: MouseKeybind,
    /// Resize the window on the right or bottom side of the handle.
    pub resize_after: MouseKeybind,
    /// Resize both sides equally.
    pub resize_evenly: MouseKeybind,
    /// Equally resize the sides of the left/top window.
    pub resize_before_symmetric: MouseKeybind,
    /// Equally resize the sides of the right/bottom window.
    pub resize_after_symmetric: MouseKeybind,
}

impl Default for ResizeHandleBindings {
    fn default() -> (b: Self)
        ensures
            b.resize_before@ == parsed(seq!["lmb"@]),
            b.resize_after@ == parsed(seq!["rmb"@]),
            b.resize_evenly@ == parsed(seq!["mmb"@]),
            b.resize_before_symmetric@ == parsed(seq!["lmb+mmb"@]),
            b.resize_after_symmetric@ == parsed(seq!["rmb+mmb"@]),
    {
        let b = ResizeHandleBindings {
            resize_before: MouseKeybind::from_strs(&["lmb"]),
            resize_after: MouseKeybind::from_strs(&["rmb"]),
            resize_evenly: MouseKeybind::from_strs(&["mmb"]),
            resize_before_symmetric: MouseKeybind::from_strs(&["lmb+mmb"]),
            resize_after_symmetric: MouseKeybind::from_strs(&["rmb+mmb"]),
        };
        assert(b.resize_before@ =~= parsed(seq!["lmb"@]));
        assert(b.resize_after@ =~= parsed(seq!["rmb"@]));
        assert(b.resize_evenly@ =~= parsed(seq!["mmb"@]));
        assert(b.resize_before_symmetric@ =~= parsed(seq!["lmb+mmb"@]));
        assert(b.resize_after_symmetric@ =~= parsed(seq!["rmb+mmb"@]));
        b
    }
}

/// Mouse controls for moving and resizing windows while holding a modifier.
#[derive(Debug, Clone)]
pub struct ModTransformBindings {
    /// Move the window into or around the tiled layout.
    pub tile: ModMouseKeybind,
    /// Make the window move freely without tiling.
    pub float: ModMouseKeybind,
    /// Move the window without changing its tiled/floating state.
    pub shift: ModMouseKeybind,
    /// Switch between tiled and floating.
    pub toggle: ModMouseKeybind,
    /// Resize the window from the corner or edge being dragged.
    pub resize: ModMouseKeybind,
    /// Equally resize the sides of the window.
    pub resize_symmetric: ModMouseKeybind,
    /// Open the context menu.
    pub context_menu: ModMouseKeybind,
}

impl Default for ModTransformBindings {
    fn default() -> (b: Self)
        ensures
            b.tile@ == parsed(seq!["ctrl+lmb"@, "bmb+lmb"@]),
            b.float@ == Seq::<ComboView>::empty(),
            b.shift@ == Seq::<ComboView>::empty(),
            b.toggle@ == parsed(seq!["ctrl+lmb+rmb"@, "bmb+lmb+rmb"@, "fmb+lmb"@]),
            b.resize@ == parsed(seq!["ctrl+rmb"@, "bmb+rmb"@]),
            b.resize_symmetric@ == parsed(seq!["ctrl+mmb"@, "bmb+mmb"@]),
            b.context_menu@ == parsed(seq!["bmb+rmb"@, "ctrl+rmb"@]),
    {
        let b = ModTransformBindings {
            tile: ModMouseKeybind::from_strs(&["ctrl+lmb", "bmb+lmb"]),
            float: ModMouseKeybind::from_strs(&[]),
            shift: ModMouseKeybind::from_strs(&[]),
            toggle: ModMouseKeybind::from_strs(&["ctrl+lmb+rmb", "bmb+lmb+rmb", "fmb+lmb"]),
            resize: ModMouseKeybind::from_strs(&["ctrl+rmb", "bmb+rmb"]),
            resize_symmetric: ModMouseKeybind::from_strs(&["ctrl+mmb", "bmb+mmb"]),
            context_menu: ModMouseKeybind::from_strs(&["bmb+rmb", "ctrl+rmb"]),
        };
        assert(b.tile@ =~= parsed(seq!["ctrl+lmb"@, "bmb+lmb"@]));
        assert(b.float@ =~= Seq::<ComboView>::empty());
        assert(b.shift@ =~= Seq::<ComboView>::empty());
        assert(b.toggle@ =~= parsed(seq!["ctrl+lmb+rmb"@, "bmb+lmb+rmb"@, "fmb+lmb"@]));
        assert(b.resize@ =~= parsed(seq!["ctrl+rmb"@, "bmb+rmb"@]));
        assert(b.resize_symmetric@ =~= parsed(seq!["ctrl+mmb"@, "bmb+mmb"@]));
        assert(b.context_menu@ =~= parsed(seq!["bmb+rmb"@, "ctrl+rmb"@]));
        b
    }
}


/// The binding stored under `n`, if any.
pub open spec fn lookup_keybind(s: Seq<(String, KeyboardKeybind)>, n: Seq<char>) -> Option<Seq<ComboView>> {
    if has_name(s, n) {
        Some(s[choose|i: int| 0 <= i < s.len() && (#[trigger] s[i]).0@ == n].1@)
    } else {
        None
    }
}

/// The position of the first pair from `k` on stored under `n`.
pub open spec fn name_position(s: Seq<(String, KeyboardKeybind)>, n: Seq<char>, k: int) -> Option<int>
    decreases s.len() - k,
{
    if k < 0 || k >= s.len() {
        None
    } else if s[k].0@ == n {
        Some(k)
    } else {
        name_position(s, n, k + 1)
    }
}

proof fn lemma_name_position_none(s: Seq<(String, KeyboardKeybind)>, n: Seq<char>, k: int)
    requires
        0 <= k,
        name_position(s, n, k) is None,
    ensures
        forall|i: int| k <= i < s.len() ==> (#[trigger] s[i]).0@ != n,
    decreases s.len() - k,
{
    if k < s.len() {
        lemma_name_position_none(s, n, k + 1);
    }
}

/// `after` holds the shortcuts of `before` and, for every command of `defs`
/// without one, its default shortcut.
pub open spec fn filled(
    before: Seq<(String, KeyboardKeybind)>,
    after: Seq<(String, KeyboardKeybind)>,
    defs: Seq<crate::commands::CommandDef>,
) -> bool {
    forall|n: Seq<char>|
        #![trigger lookup_keybind(after, n)]
        lookup_keybind(after, n) == match lookup_keybind(before, n) {
            Some(k) => Some(k),
            None => match last_default(defs, n) {
                Some(d) => Some(seq![spec_parse(d)]),
                None => None,
            },
        }
}

/// Filling in the defaults a second time changes no shortcut: every command
/// of the registry already has one.
pub proof fn lemma_fill_defaults_idempotent(
    a: Seq<(String, KeyboardKeybind)>,
    b: Seq<(String, KeyboardKeybind)>,
    c: Seq<(String, KeyboardKeybind)>,
    defs: Seq<crate::commands::CommandDef>,
)
    requires
        filled(a, b, defs),
        filled(b, c, defs),
    ensures
        forall|n: Seq<char>| #[trigger] lookup_keybind(c, n) == lookup_keybind(b, n),
{
    assert forall|n: Seq<char>| #[trigger] lookup_keybind(c, n) == lookup_keybind(b, n) by {
        assert(lookup_keybind(b, n) == match lookup_keybind(a, n) {
            Some(k) => Some(k),
            None => match last_default(defs, n) {
                Some(d) => Some(seq![spec_parse(d)]),
                None => None,
            },
        });
        assert(lookup_keybind(c, n) == match lookup_keybind(b, n) {
            Some(k) => Some(k),
            None => match last_default(defs, n) {
                Some(d) => Some(seq![spec_parse(d)]),
                None => None,
            },
        });
    }
}

/// The keyboard shortcuts of the commands, by command id; no id occurs twice.
#[derive(Debug)]
pub struct Commands {
    keybinds: Vec<(String, KeyboardKeybind)>,
}

impl Clone for Commands {
    fn clone(&self) -> (c: Self)
        ensures
            c.entries().len() == self.entries().len(),
            forall|i: int|
                0 <= i < c.entries().len() ==> (#[trigger] c.entries()[i]).0@ == self.entries()[i].0@
                    && c.entries()[i].1@ == self.entries()[i].1@,
    {
        proof {
            use_type_invariant(self);
        }
        let mut keybinds: Vec<(String, KeyboardKeybind)> = Vec::new();
        for i in 0..self.keybinds.len()
            invariant
                unique_names(self.keybinds@),
                keybinds@.len() == i,
                forall|j: int|
                    0 <= j < i ==> (#[trigger] keybinds@[j]).0@ == self.keybinds@[j].0@
                        && keybinds@[j].1@ == self.keybinds@[j].1@,
        {
            keybinds.push((self.keybinds[i].0.clone(), self.keybinds[i].1.clone()));
        }
        proof {
            assert forall|a: int, b: int| 0 <= a < b < keybinds@.len() implies
                (#[trigger] keybinds@[a]).0@ != (#[trigger] keybinds@[b]).0@ by {
                assert(self.keybinds@[a].0@ != self.keybinds@[b].0@);
            }
        }
        Commands { keybinds }
    }
}

impl Commands {
    #[verifier::type_invariant]
    spec fn names_are_unique(self) -> bool {
        unique_names(self.keybinds@)
    }

    /// The stored pairs of command id and shortcut, in order.
    pub closed spec fn entries(self) -> Seq<(String, KeyboardKeybind)> {
        self.keybinds@
    }

    /// No shortcut configured.
    pub fn new() -> (c: Commands)
        ensures
            c.entries().len() == 0,
    {
        Commands { keybinds: Vec::new() }
    }

    /// The stored pairs of command id and shortcut; no id occurs twice.
    pub fn keybinds(&self) -> (r: &Vec<(String, KeyboardKeybind)>)
        ensures
            r@ == self.entries(),
            unique_names(r@),
    {
        proof {
            use_type_invariant(self);
        }
        &self.keybinds
    }

    /// Sets the shortcut of `name`: the stored one is replaced where there is
    /// one, otherwise the pair is added at the end.
    pub fn insert(&mut self, name: String, keybind: KeyboardKeybind)
        ensures
            match name_position(old(self).entries(), name@, 0) {
                Some(i) => final(self).entries() == old(self).entries().update(i, (name, keybind)),
                None => final(self).entries() == old(self).entries().push((name, keybind)),
            },
    {
        proof {
            use_type_invariant(&*self);
        }
        let ghost before = self.keybinds@;
        let n = self.keybinds.len();
        let mut i: usize = 0;
        while i < n
            invariant
                n == self.keybinds@.len(),
                self.keybinds@ == before,
                before == old(self).entries(),
                unique_names(before),
                i <= n,
                name_position(before, name@, 0) == name_position(before, name@, i as int),
            decreases n - i,
        {
            if self.keybinds[i].0 == name {
                assert(name_position(before, name@, i as int) == Some(i as int));
                let mut keybinds = Vec::new();
                std::mem::swap(&mut keybinds, &mut self.keybinds);
                keybinds.set(i, (name, keybind));
                proof {
                    assert forall|a: int, b: int| 0 <= a < b < keybinds@.len() implies
                        (#[trigger] keybinds@[a]).0@ != (#[trigger] keybinds@[b]).0@ by {
                        assert(before[a].0@ != before[b].0@);
                    }
                }
                self.keybinds = keybinds;
                return;
            }
            i = i + 1;
        }
        proof {
            lemma_name_position_none(before, name@, 0);
        }
        let mut keybinds = Vec::new();
        std::mem::swap(&mut keybinds, &mut self.keybinds);
        let ghost e = (name, keybind);
        keybinds.push((name, keybind));
        proof {
            assert forall|a: int, b: int| 0 <= a < b < keybinds@.len() implies
                (#[trigger] keybinds@[a]).0@ != (#[trigger] keybinds@[b]).0@ by {
                if b == before.len() {
                    assert(!has_name(before, e.0@));
                    if keybinds@[a].0@ == e.0@ {
                        assert(before[a].0@ == e.0@);
                    }
                } else {
                    assert(before[a].0@ != before[b].0@);
                }
            }
        }
        self.keybinds = keybinds;
    }

    /// The position of the shortcut stored under `name`.
    pub fn position_of(&self, name: &String) -> (r: Option<usize>)
        ensures
            match r {
                Some(i) => i < self.entries().len() && self.entries()[i as int].0@ == name@
                    && lookup_keybind(self.entries(), name@) == Some(self.entries()[i as int].1@),
                None => lookup_keybind(self.entries(), name@) is None,
            },
    {
        proof {
            use_type_invariant(self);
        }
        for i in 0..self.keybinds.len()
            invariant
                unique_names(self.keybinds@),
                forall|j: int| 0 <= j < i ==> (#[trigger] self.keybinds@[j]).0@ != name@,
        {
            if self.keybinds[i].0 == *name {
                assert(self.keybinds@[i as int].0@ == name@);
                assert(has_name(self.keybinds@, name@));
                let ghost c = choose|j: int| 0 <= j < self.keybinds@.len() && (#[trigger] self.keybinds@[j]).0@ == name@;
                assert(self.keybinds@[c].0@ == name@);
                proof {
                    if c < i {
                        assert(self.keybinds@[c].0@ != self.keybinds@[i as int].0@);
                    } else if c > i {
                        assert(self.keybinds@[i as int].0@ != self.keybinds@[c].0@);
                    }
                }
                return Some(i);
            }
        }
        None
    }

    /// Adds, for every registered command without a shortcut, its default one.
    pub fn fill_defaults(&mut self, registry: &CommandRegistry)
        ensures
            final(self).entries().subrange(0, old(self).entries().len() as int) == old(self).entries(),
            filled(old(self).entries(), final(self).entries(), registry.defs@),
    {
        proof {
            use_type_invariant(&*self);
        }
        let defaults = get_defaults(registry);
        let ghost old_k = self.keybinds@;
        for k in 0..defaults.len()
            invariant
                unique_names(defaults@),
                forall|i: int| 0 <= i < defaults@.len() ==> last_default(registry.defs@, (#[trigger] defaults@[i]).0@) == Some(defaults@[i].1@),
                forall|id: Seq<char>| #[trigger] last_default(registry.defs@, id) is Some ==> has_name(defaults@, id),
                unique_names(self.keybinds@),
                old_k.len() <= self.keybinds@.len(),
                self.keybinds@.subrange(0, old_k.len() as int) == old_k,
                forall|n: Seq<char>|
                    #![trigger lookup_keybind(self.keybinds@, n)]
                    lookup_keybind(self.keybinds@, n) == match lookup_keybind(old_k, n) {
                        Some(v) => Some(v),
                        None => if exists|i: int| 0 <= i < k && (#[trigger] defaults@[i]).0@ == n {
                            Some(seq![spec_parse(last_default(registry.defs@, n)->0)])
                        } else {
                            None
                        },
                    },
        {
            let name = &defaults[k].0;
            let default = &defaults[k].1;
            let ghost cur = self.keybinds@;
            assert forall|i: int| 0 <= i < k implies (#[trigger] defaults@[i]).0@ != name@ by {
                assert(defaults@[i].0@ != defaults@[k as int].0@);
            }
            match self.position_of(name) {
                Some(_) => {},
                None => {
                    let kb = KeyboardKeybind::from_strs(&[default.as_str()]);
                    assert(kb@ =~= seq![spec_parse(default@)]);
                    let entry = (name.clone(), kb);
                    let ghost e = entry;
                    let mut keybinds = Vec::new();
                    std::mem::swap(&mut keybinds, &mut self.keybinds);
                    keybinds.push(entry);
                    assert(keybinds@ == cur.push(e));
                    assert(unique_names(keybinds@)) by {
                        assert forall|i: int, j: int| 0 <= i < j < keybinds@.len() implies
                            (#[trigger] keybinds@[i]).0@ != (#[trigger] keybinds@[j]).0@ by {
                            if j == cur.len() {
                                assert(cur[i].0@ != name@) by {
                                    if cur[i].0@ == name@ {
                                        assert(has_name(cur, name@));
                                    }
                                }
                            }
                        }
                    }
                    self.keybinds = keybinds;
                    assert(self.keybinds@.subrange(0, old_k.len() as int) =~= cur.subrange(0, old_k.len() as int));
                    assert forall|n: Seq<char>| #[trigger] lookup_keybind(self.keybinds@, n)
                        == if n == name@ { Some(e.1@) } else { lookup_keybind(cur, n) } by {
                        lemma_lookup_push(cur, e, n);
                    }
                },
            }
            assert forall|n: Seq<char>|
                #![trigger lookup_keybind(self.keybinds@, n)]
                lookup_keybind(self.keybinds@, n) == match lookup_keybind(old_k, n) {
                    Some(v) => Some(v),
                    None => if exists|i: int| 0 <= i < k + 1 && (#[trigger] defaults@[i]).0@ == n {
                        Some(seq![spec_parse(last_default(registry.defs@, n)->0)])
                    } else {
                        None
                    },
                } by {
                if n == name@ {
                    assert(defaults@[k as int].0@ == n);
                } else {
                    assert(lookup_keybind(self.keybinds@, n) == lookup_keybind(cur, n));
                    if exists|i: int| 0 <= i < k + 1 && (#[trigger] defaults@[i]).0@ == n {
                        let i = choose|i: int| 0 <= i < k + 1 && (#[trigger] defaults@[i]).0@ == n;
                        assert(i < k);
                    }
                }
            }
        }
        assert forall|n: Seq<char>|
            #![trigger lookup_keybind(self.keybinds@, n)]
            lookup_keybind(self.keybinds@, n) == match lookup_keybind(old_k, n) {
                Some(k) => Some(k),
                None => match last_default(registry.defs@, n) {
                    Some(d) => Some(seq![spec_parse(d)]),
                    None => None,
                },
            } by {
            if last_default(registry.defs@, n) is Some {
                assert(has_name(defaults@, n));
            }
            if exists|i: int| 0 <= i < defaults@.len() && (#[trigger] defaults@[i]).0@ == n {
                let i = choose|i: int| 0 <= i < defaults@.len() && (#[trigger] defaults@[i]).0@ == n;
                assert(last_default(registry.defs@, defaults@[i].0@) == Some(defaults@[i].1@));
            }
        }
    }
}

/// The binding stored under the name at `i` is the one at `i`.
proof fn lemma_lookup_at(s: Seq<(String, KeyboardKeybind)>, i: int)
    requires
        unique_names(s),
        0 <= i < s.len(),
    ensures
        lookup_keybind(s, s[i].0@) == Some(s[i].1@),
{
    assert(has_name(s, s[i].0@));
    let c = choose|j: int| 0 <= j < s.len() && (#[trigger] s[j]).0@ == s[i].0@;
    if c != i {
        assert(s[c].0@ == s[i].0@);
    }
}

/// Looking up in `s` with `e` appended.
proof fn lemma_lookup_push(s: Seq<(String, KeyboardKeybind)>, e: (String, KeyboardKeybind), n: Seq<char>)
    requires
        unique_names(s.push(e)),
    ensures
        lookup_keybind(s.push(e), n) == if n == e.0@ { Some(e.1@) } else { lookup_keybind(s, n) },
{
    let t = s.push(e);
    assert(unique_names(s)) by {
        assert forall|i: int, j: int| 0 <= i < j < s.len() implies (#[trigger] s[i]).0@ != (#[trigger] s[j]).0@ by {
            assert(t[i] == s[i] && t[j] == s[j]);
        }
    }
    if n == e.0@ {
        lemma_lookup_at(t, s.len() as int);
    } else if has_name(s, n) {
        let i = choose|i: int| 0 <= i < s.len() && (#[trigger] s[i]).0@ == n;
        assert(t[i] == s[i]);
        lemma_lookup_at(t, i);
        lemma_lookup_at(s, i);
    } else {
        assert(!has_name(t, n)) by {
            if has_name(t, n) {
                let j = choose|j: int| 0 <= j < t.len() && (#[trigger] t[j]).0@ == n;
                if j < s.len() {
                    assert(t[j] == s[j]);
                }
            }
        }
    }
}


/// Settings of the assistant that organizes windows.
#[derive(Debug, Clone)]
pub struct AiConfig {
    pub enabled: bool,
    /// The chat-completion endpoint.
    pub api_url: String,
    pub api_key: String,
    pub model: String,
    /// Free-form instructions on how windows should be organized.
    pub organization_preferences: String,
    /// The bit pattern of the `f32` sampling temperature.
    pub temperature_bits: u32,
}

/// The bit pattern of the `f32` value 1.0.
pub const F32_ONE_BITS: u32 = 0x3F80_0000;

/// The bit pattern of the `f32` value 0.8.
pub const F32_POINT_EIGHT_BITS: u32 = 0x3F4C_CCCD;

impl Default for AiConfig {
    fn default() -> (c: Self)
        ensures
            !c.enabled,
            c.api_url@.len() == 0 && c.api_key@.len() == 0 && c.model@.len() == 0,
            c.organization_preferences@.len() == 0,
            c.temperature_bits == F32_ONE_BITS,
    {
        AiConfig {
            enabled: false,
            api_url: String::new(),
            api_key: String::new(),
            model: String::new(),
            organization_preferences: String::new(),
            temperature_bits: F32_ONE_BITS,
        }
    }
}

/// A colour by its red, green and blue components.
#[derive(Debug, Clone, Copy, PartialEq, Eq, Structural)]
pub struct Rgb {
    pub red: u8,
    pub green: u8,
    pub blue: u8,
}

/// The window manager's configuration.
#[derive(Debug, Clone)]
pub struct Config {
    /// The file the configuration was loaded from.
    pub config_path: Option<String>,
    /// Save and restore the window layout across restarts.
    pub persistence: bool,
    /// Space between windows, in pixels.
    pub window_gap: u32,
    /// Space between the screen edges and the windows, in pixels.
    pub partition_gap: u32,
    /// New windows start floating instead of tiled.
    pub float_new_windows: bool,
    /// Focus the window under the mouse.
    pub focus_on_hover: bool,
    /// Focus a window when a modifier drag starts on it.
    pub focus_on_drag: bool,
    pub tile_preview_fps: u32,
    pub tile_preview_animation_ms: u32,
    pub tile_preview_fade_animate: bool,
    pub tile_preview_move_animate: bool,
    pub window_tile_animate: bool,
    pub window_tile_animation_ms: u32,
    pub window_tile_fps: u32,
    /// Show resize handles between tiled windows.
    pub resize_handles: bool,
    pub resize_handle_width: u32,
    pub resize_handle_color: Rgb,
    /// The bit pattern of the `f32` opacity of the handle highlight.
    pub resize_handle_opacity_bits: u32,
    /// Resize windows while a handle is dragged.
    pub live_window_resize: bool,
    pub live_window_resize_fps: u32,
    pub resize_handle_bindings: ResizeHandleBindings,
    pub mod_transform_bindings: ModTransformBindings,
    pub commands: Commands,
    pub ai: AiConfig,
}

impl Default for Config {
    fn default() -> (c: Self)
        ensures
            c.config_path is None,
            c.persistence,
            c.window_gap == 20 && c.partition_gap == 40,
            c.float_new_windows && !c.focus_on_hover && !c.focus_on_drag,
            c.tile_preview_fps == 30 && c.tile_preview_animation_ms == 150,
            c.tile_preview_fade_animate && c.tile_preview_move_animate,
            c.window_tile_animate && c.window_tile_animation_ms == 150 && c.window_tile_fps == 30,
            c.resize_handles && c.resize_handle_width == 25,
            c.resize_handle_color == (Rgb { red: 40, green: 40, blue: 40 }),
            c.resize_handle_opacity_bits == F32_POINT_EIGHT_BITS,
            c.live_window_resize && c.live_window_resize_fps == 30,
            c.resize_handle_bindings.resize_before@ == parsed(seq!["lmb"@]),
            c.resize_handle_bindings.resize_after@ == parsed(seq!["rmb"@]),
            c.resize_handle_bindings.resize_evenly@ == parsed(seq!["mmb"@]),
            c.resize_handle_bindings.resize_before_symmetric@ == parsed(seq!["lmb+mmb"@]),
            c.resize_handle_bindings.resize_after_symmetric@ == parsed(seq!["rmb+mmb"@]),
            c.mod_transform_bindings.tile@ == parsed(seq!["ctrl+lmb"@, "bmb+lmb"@]),
            c.mod_transform_bindings.float@ == Seq::<ComboView>::empty(),
            c.mod_transform_bindings.shift@ == Seq::<ComboView>::empty(),
            c.mod_transform_bindings.toggle@ == parsed(seq!["ctrl+lmb+rmb"@, "bmb+lmb+rmb"@, "fmb+lmb"@]),
            c.mod_transform_bindings.resize@ == parsed(seq!["ctrl+rmb"@, "bmb+rmb"@]),
            c.mod_transform_bindings.resize_symmetric@ == parsed(seq!["ctrl+mmb"@, "bmb+mmb"@]),
            c.mod_transform_bindings.context_menu@ == parsed(seq!["bmb+rmb"@, "ctrl+rmb"@]),
            c.commands.entries().len() == 0,
            !c.ai.enabled && c.ai.api_url@.len() == 0 && c.ai.api_key@.len() == 0 && c.ai.model@.len() == 0,
            c.ai.organization_preferences@.len() == 0 && c.ai.temperature_bits == F32_ONE_BITS,
    {
        Config {
            config_path: None,
            persistence: true,
            window_gap: 20,
            partition_gap: 40,
            float_new_windows: true,
            focus_on_hover: false,
            focus_on_drag: false,
            tile_preview_fps: 30,
            tile_preview_animation_ms: 150,
            tile_preview_fade_animate: true,
            tile_preview_move_animate: true,
            window_tile_animate: true,
            window_tile_animation_ms: 150,
            window_tile_fps: 30,
            resize_handles: true,
            resize_handle_width: 25,
            resize_handle_color: Rgb { red: 40, green: 40, blue: 40 },
            resize_handle_opacity_bits: F32_POINT_EIGHT_BITS,
            live_window_resize: true,
            live_window_resize_fps: 30,
            resize_handle_bindings: ResizeHandleBindings::default(),
            mod_transform_bindings: ModTransformBindings::default(),
            commands: Commands::new(),
            ai: AiConfig::default(),
        }
    }
}

} // verus!
