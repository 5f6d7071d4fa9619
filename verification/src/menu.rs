use vstd::prelude::*;
use crate::commands::CommandContext;
use crate::config::config::Config;
use crate::platform::ContextMenuRequest;

verus! {

/// What a click on a menu entry leads to.
#[derive(Debug, Clone, PartialEq, Eq)]
pub enum MenuRoute {
    /// The callback registered under the entry's id runs.
    Callback,
    /// The command whose id follows the `cmd:` prefix is triggered, with the
    /// context of the context menu shown last, if any.
    Command { id: String, context: Option<CommandContext> },
    /// Nothing handles the entry.
    Unhandled,
}

/// The prefix of the ids of menu entries that stand for commands.
pub open spec fn command_prefix() -> Seq<char> {
    seq!['c', 'm', 'd', ':']
}

/// Whether `id` names a command entry.
pub open spec fn is_command_entry(id: Seq<char>) -> bool {
    id.len() >= 4 && id.subrange(0, 4) == command_prefix()
}

/// The context a command triggered from the context menu `current` gets: the
/// window it was opened on, else the position it was opened at.
pub open spec fn menu_context(current: Option<ContextMenuRequest>) -> Option<CommandContext> {
    match current {
        Some(m) => Some(
            match m.target_window {
                Some(w) => CommandContext { target_window: Some(w), position: None },
                None => CommandContext { target_window: None, position: Some(m.position) },
            },
        ),
        None => None,
    }
}

/// Where a click on the menu entry `id` goes: to the callback registered for
/// it if there is one; else, for an id made of `cmd:` and a command id, to that command,
/// aimed by the context menu shown last; else nowhere.
pub fn route_menu_event<T>(id: &str, callbacks: &MenuCallbacks<T>, current: Option<ContextMenuRequest>) -> (r:
    MenuRoute)
    ensures
        entry_get(callbacks_view(callbacks.entries@), id@) is Some ==> r == MenuRoute::Callback,
        entry_get(callbacks_view(callbacks.entries@), id@) is None && is_command_entry(id@) ==> (r matches MenuRoute::Command { id: c, context }
            && c@ == id@.subrange(4, id@.len() as int) && context == menu_context(current)),
        entry_get(callbacks_view(callbacks.entries@), id@) is None && !is_command_entry(id@) ==> r == MenuRoute::Unhandled,
{
    if callbacks.get(id).is_some() {
        return MenuRoute::Callback;
    }
    let n = id.unicode_len();
    if n >= 4 && id.get_char(0) == 'c' && id.get_char(1) == 'm' && id.get_char(2) == 'd' && id.get_char(3)
        == ':' {
        assert(id@.subrange(0, 4) =~= command_prefix());
        let context = match current {
            Some(m) => match m.target_window {
                Some(w) => Some(CommandContext::with_window(w)),
                None => Some(CommandContext::with_position(m.position)),
            },
            None => None,
        };
        let cmd = id.substring_char(4, n).to_owned();
        MenuRoute::Command { id: cmd, context }
    } else {
        proof {
            if is_command_entry(id@) {
                assert(id@.subrange(0, 4)[0] == id@[0]);
                assert(id@.subrange(0, 4)[1] == id@[1]);
                assert(id@.subrange(0, 4)[2] == id@[2]);
                assert(id@.subrange(0, 4)[3] == id@[3]);
            }
        }
        MenuRoute::Unhandled
    }
}

/// A setting that the tray menu shows as a check item, which a click flips.
#[derive(Debug, Clone, Copy, PartialEq, Eq, Structural)]
pub enum ConfigToggle {
    Persistence,
    LiveWindowResize,
    ResizeHandles,
    FloatNewWindows,
    FocusOnHover,
}

impl ConfigToggle {
    /// The value of the setting in `c`.
    pub open spec fn spec_get(self, c: Config) -> bool {
        match self {
            ConfigToggle::Persistence => c.persistence,
            ConfigToggle::LiveWindowResize => c.live_window_resize,
            ConfigToggle::ResizeHandles => c.resize_handles,
            ConfigToggle::FloatNewWindows => c.float_new_windows,
            ConfigToggle::FocusOnHover => c.focus_on_hover,
        }
    }

    /// `c` with the setting flipped and every other setting kept.
    pub open spec fn spec_flipped(self, c: Config) -> Config {
        match self {
            ConfigToggle::Persistence => Config { persistence: !c.persistence, ..c },
            ConfigToggle::LiveWindowResize => Config { live_window_resize: !c.live_window_resize, ..c },
            ConfigToggle::ResizeHandles => Config { resize_handles: !c.resize_handles, ..c },
            ConfigToggle::FloatNewWindows => Config { float_new_windows: !c.float_new_windows, ..c },
            ConfigToggle::FocusOnHover => Config { focus_on_hover: !c.focus_on_hover, ..c },
        }
    }

    /// Whether the check item is checked under `config`.
    pub fn get(&self, config: &Config) -> (b: bool)
        ensures
            b == self.spec_get(*config),
    {
        match self {
            ConfigToggle::Persistence => config.persistence,
            ConfigToggle::LiveWindowResize => config.live_window_resize,
            ConfigToggle::ResizeHandles => config.resize_handles,
            ConfigToggle::FloatNewWindows => config.float_new_windows,
            ConfigToggle::FocusOnHover => config.focus_on_hover,
        }
    }

    /// What a click on the check item does to the configuration.
    pub fn toggle(&self, config: &mut Config)
        ensures
            *final(config) == self.spec_flipped(*old(config)),
    {
        match self {
            ConfigToggle::Persistence => config.persistence = !config.persistence,
            ConfigToggle::LiveWindowResize => config.live_window_resize = !config.live_window_resize,
            ConfigToggle::ResizeHandles => config.resize_handles = !config.resize_handles,
            ConfigToggle::FloatNewWindows => config.float_new_windows = !config.float_new_windows,
            ConfigToggle::FocusOnHover => config.focus_on_hover = !config.focus_on_hover,
        }
    }
}

/// The check items of the tray menu, with their labels, in menu order.
pub fn tray_toggles() -> (r: Vec<(&'static str, ConfigToggle)>)
    ensures
        r@.len() == 5,
        r@[0].0@ == "Persistence"@ && r@[0].1 == ConfigToggle::Persistence,
        r@[1].0@ == "Live Window Resize"@ && r@[1].1 == ConfigToggle::LiveWindowResize,
        r@[2].0@ == "Resize Handles"@ && r@[2].1 == ConfigToggle::ResizeHandles,
        r@[3].0@ == "Float New Windows"@ && r@[3].1 == ConfigToggle::FloatNewWindows,
        r@[4].0@ == "Focus on Hover"@ && r@[4].1 == ConfigToggle::FocusOnHover,
{
    vec![
        ("Persistence", ConfigToggle::Persistence),
        ("Live Window Resize", ConfigToggle::LiveWindowResize),
        ("Resize Handles", ConfigToggle::ResizeHandles),
        ("Float New Windows", ConfigToggle::FloatNewWindows),
        ("Focus on Hover", ConfigToggle::FocusOnHover),
    ]
}

/// Flipping a setting twice gives back the configuration it started from.
pub proof fn lemma_toggle_twice(t: ConfigToggle, c: Config)
    ensures
        t.spec_flipped(t.spec_flipped(c)) == c,
        t.spec_get(t.spec_flipped(c)) == !t.spec_get(c),
{
}

/// The entries of `s` with their ids as text.
pub open spec fn callbacks_view<T>(s: Seq<(String, T)>) -> Seq<(Seq<char>, T)> {
    s.map_values(|e: (String, T)| (e.0@, e.1))
}

/// The position of the first entry of `s` under `id`.
pub open spec fn entry_position<T>(s: Seq<(Seq<char>, T)>, id: Seq<char>) -> Option<int>
    decreases s.len(),
{
    if s.len() == 0 {
        None
    } else if s.last().0 == id && entry_position(s.drop_last(), id) is None {
        Some(s.len() - 1)
    } else {
        entry_position(s.drop_last(), id)
    }
}

/// What `s` holds under `id`.
pub open spec fn entry_get<T>(s: Seq<(Seq<char>, T)>, id: Seq<char>) -> Option<T> {
    match entry_position(s, id) {
        Some(i) => Some(s[i].1),
        None => None,
    }
}

/// `s` with `v` stored under `id`: in place of what was stored there, else at the end.
pub open spec fn entry_insert<T>(s: Seq<(Seq<char>, T)>, id: Seq<char>, v: T) -> Seq<(Seq<char>, T)> {
    match entry_position(s, id) {
        Some(i) => s.update(i, (id, v)),
        None => s.push((id, v)),
    }
}

proof fn lemma_entry_position<T>(s: Seq<(Seq<char>, T)>, id: Seq<char>)
    ensures
        match entry_position(s, id) {
            Some(i) => 0 <= i < s.len() && s[i].0 == id && forall|j: int| 0 <= j < i ==> (#[trigger] s[j]).0 != id,
            None => forall|j: int| 0 <= j < s.len() ==> (#[trigger] s[j]).0 != id,
        },
    decreases s.len(),
{
    if s.len() > 0 {
        lemma_entry_position(s.drop_last(), id);
        assert forall|j: int| 0 <= j < s.len() - 1 implies (#[trigger] s[j]) == s.drop_last()[j] by {}
    }
}

proof fn lemma_position_unique<T>(s: Seq<(Seq<char>, T)>, id: Seq<char>, i: int)
    requires
        0 <= i < s.len(),
        s[i].0 == id,
        forall|j: int| 0 <= j < i ==> (#[trigger] s[j]).0 != id,
    ensures
        entry_position(s, id) == Some(i),
{
    lemma_entry_position(s, id);
    match entry_position(s, id) {
        Some(q) => {
            if q < i {
                assert(s[q].0 != id);
            } else if q > i {
                assert(s[i].0 != id);
            }
        },
        None => {
            assert(s[i].0 != id);
        },
    }
}

/// Storing under an id and then reading that id gives back what was stored;
/// every other id reads as before.
pub proof fn lemma_get_after_insert<T>(s: Seq<(Seq<char>, T)>, id: Seq<char>, v: T, other: Seq<char>)
    ensures
        entry_get(entry_insert(s, id, v), id) == Some(v),
        other != id ==> entry_get(entry_insert(s, id, v), other) == entry_get(s, other),
{
    let t = entry_insert(s, id, v);
    lemma_entry_position(s, id);
    lemma_entry_position(s, other);
    lemma_entry_position(t, other);
    match entry_position(s, id) {
        Some(i) => {
            assert forall|j: int| 0 <= j < i implies (#[trigger] t[j]).0 != id by {
                assert(t[j] == s[j]);
            }
            lemma_position_unique(t, id, i);
            if other != id {
                match entry_position(s, other) {
                    Some(q) => {
                        assert(t[q] == s[q]);
                        assert forall|j: int| 0 <= j < q implies (#[trigger] t[j]).0 != other by {
                            if j != i {
                                assert(t[j] == s[j]);
                            }
                        }
                        lemma_position_unique(t, other, q);
                    },
                    None => {
                        assert forall|j: int| 0 <= j < t.len() implies (#[trigger] t[j]).0 != other by {
                            if j != i {
                                assert(t[j] == s[j]);
                            }
                        }
                    },
                }
            }
        },
        None => {
            assert forall|j: int| 0 <= j < s.len() implies (#[trigger] t[j]).0 != id by {
                assert(t[j] == s[j]);
            }
            lemma_position_unique(t, id, s.len() as int);
            if other != id {
                match entry_position(s, other) {
                    Some(q) => {
                        assert(t[q] == s[q]);
                        assert forall|j: int| 0 <= j < q implies (#[trigger] t[j]).0 != other by {
                            assert(t[j] == s[j]);
                        }
                        lemma_position_unique(t, other, q);
                    },
                    None => {
                        assert forall|j: int| 0 <= j < t.len() implies (#[trigger] t[j]).0 != other by {
                            if j < s.len() {
                                assert(t[j] == s[j]);
                            }
                        }
                    },
                }
            }
        },
    }
}

/// The callbacks of the menu entries, by entry id.
pub struct MenuCallbacks<T> {
    pub entries: Vec<(String, T)>,
}

impl<T> MenuCallbacks<T> {
    /// No callback registered.
    pub fn new() -> (c: MenuCallbacks<T>)
        ensures
            c.entries@.len() == 0,
    {
        MenuCallbacks { entries: Vec::new() }
    }

    /// Registers `callback` for the menu entry `id`, in place of one
    /// registered for it before.
    pub fn register_callback(&mut self, id: String, callback: T)
        ensures
            callbacks_view(final(self).entries@) == entry_insert(callbacks_view(old(self).entries@), id@, callback),
    {
        let ghost before = callbacks_view(self.entries@);
        let mut i: usize = 0;
        while i < self.entries.len()
            invariant
                i <= self.entries@.len(),
                before == callbacks_view(self.entries@),
                before == callbacks_view(old(self).entries@),
                forall|j: int| 0 <= j < i ==> (#[trigger] before[j]).0 != id@,
            decreases self.entries@.len() - i,
        {
            assert(before[i as int] == (self.entries@[i as int].0@, self.entries@[i as int].1));
            if self.entries[i].0 == id {
                proof {
                    lemma_position_unique(before, id@, i as int);
                }
                let ghost e = (id@, callback);
                self.entries.set(i, (id, callback));
                assert(callbacks_view(self.entries@) =~= before.update(i as int, e));
                return;
            }
            i = i + 1;
        }
        proof {
            lemma_entry_position(before, id@);
            if entry_position(before, id@) is Some {
                let q = entry_position(before, id@)->0;
                assert(before[q].0 != id@);
            }
        }
        let ghost e = (id@, callback);
        self.entries.push((id, callback));
        assert(callbacks_view(self.entries@) =~= before.push(e));
    }

    /// The callback registered for the menu entry `id`.
    pub fn get(&self, id: &str) -> (r: Option<&T>)
        ensures
            match r {
                Some(c) => entry_get(callbacks_view(self.entries@), id@) == Some(*c),
                None => entry_get(callbacks_view(self.entries@), id@) is None,
            },
    {
        let ghost all = callbacks_view(self.entries@);
        let key = id.to_owned();
        let mut i: usize = 0;
        while i < self.entries.len()
            invariant
                i <= self.entries@.len(),
                all == callbacks_view(self.entries@),
                key@ == id@,
                forall|j: int| 0 <= j < i ==> (#[trigger] all[j]).0 != id@,
            decreases self.entries@.len() - i,
        {
            assert(all[i as int] == (self.entries@[i as int].0@, self.entries@[i as int].1));
            if self.entries[i].0 == key {
                proof {
                    lemma_position_unique(all, id@, i as int);
                }
                return Some(&self.entries[i].1);
            }
            i = i + 1;
        }
        proof {
            lemma_entry_position(all, id@);
        }
        None
    }
}

} // verus!
