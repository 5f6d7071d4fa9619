use vstd::prelude::*;
use crate::config::config::{lookup_keybind, Commands};
use crate::config::input_combo::{spec_parse, ComboView, InputCombo};
use crate::config::keybind::KeyboardKeybind;
use crate::event_handlers::keyboard_keybind_tracker::KeyboardKeybindTracker;
use crate::geometry::{Position, WindowId};

verus! {

/// Context passed to a command when it is triggered from a UI element
/// such as a context menu.
#[derive(Debug, Clone, Copy, PartialEq, Eq, Structural)]
pub struct CommandContext {
    /// The window the command is aimed at (e.g. the window right-clicked on).
    pub target_window: Option<WindowId>,
    /// Where the command was triggered (e.g. the context menu position).
    pub position: Option<Position>,
}

impl CommandContext {
    pub fn new() -> (c: CommandContext)
        ensures
            c.target_window is None,
            c.position is None,
    {
        CommandContext { target_window: None, position: None }
    }

    pub fn with_window(window_id: WindowId) -> (c: CommandContext)
        ensures
            c.target_window == Some(window_id),
            c.position is None,
    {
        CommandContext { target_window: Some(window_id), position: None }
    }

    pub fn with_position(position: Position) -> (c: CommandContext)
        ensures
            c.target_window is None,
            c.position == Some(position),
    {
        CommandContext { target_window: None, position: Some(position) }
    }

    pub fn with_window_and_position(window_id: WindowId, position: Position) -> (c: CommandContext)
        ensures
            c.target_window == Some(window_id),
            c.position == Some(position),
    {
        CommandContext { target_window: Some(window_id), position: Some(position) }
    }
}


/// The built-in work a command performs when it runs.
#[derive(Debug, Clone, Copy, PartialEq, Eq, Structural)]
pub enum CommandAction {
    /// Let the assistant arrange every window.
    OrganizeAllWindows,
    /// Let the assistant place the window the command is aimed at.
    OrganizeCurrentWindow,
}

/// The static description of a command.
#[derive(Debug, Clone, Copy)]
pub struct CommandDef {
    pub display_name: &'static str,
    pub id: &'static str,
    pub default_keybind: &'static str,
    /// What the command does when it runs.
    pub handler: CommandAction,
    pub requires_window: bool,
}

/// The registered commands, in order of registration.
#[derive(Debug, Clone)]
pub struct CommandRegistry {
    pub defs: Vec<CommandDef>,
}

/// Adds a command to the registry.
pub fn register(registry: &mut CommandRegistry, def: CommandDef)
    ensures
        final(registry).defs@ == old(registry).defs@.push(def),
{
    registry.defs.push(def);
}

impl CommandRegistry {
    /// A registry without commands.
    pub fn new() -> (r: CommandRegistry)
        ensures
            r.defs@.len() == 0,
    {
        CommandRegistry { defs: Vec::new() }
    }
}

/// The default binding of the last command registered under `id`, if any.
pub open spec fn last_default(defs: Seq<CommandDef>, id: Seq<char>) -> Option<Seq<char>>
    decreases defs.len(),
{
    if defs.len() == 0 {
        None
    } else if defs.last().id@ == id {
        Some(defs.last().default_keybind@)
    } else {
        last_default(defs.drop_last(), id)
    }
}

/// No name occurs twice among the pairs.
pub open spec fn unique_names<V>(s: Seq<(String, V)>) -> bool {
    forall|i: int, j: int| 0 <= i < j < s.len() ==> (#[trigger] s[i]).0@ != (#[trigger] s[j]).0@
}

/// Some pair is named `n`.
pub open spec fn has_name<V>(s: Seq<(String, V)>, n: Seq<char>) -> bool {
    exists|i: int| 0 <= i < s.len() && (#[trigger] s[i]).0@ == n
}

fn find_name(s: &Vec<(String, String)>, n: &String) -> (r: Option<usize>)
    ensures
        match r {
            Some(i) => i < s@.len() && s@[i as int].0@ == n@,
            None => !has_name(s@, n@),
        },
{
    for i in 0..s.len()
        invariant
            forall|j: int| 0 <= j < i ==> (#[trigger] s@[j]).0@ != n@,
    {
        if s[i].0 == *n {
            return Some(i);
        }
    }
    None
}

/// Each registered id with the default binding of the last command registered
/// under it, every id once.
pub fn get_defaults(registry: &CommandRegistry) -> (r: Vec<(String, String)>)
    ensures
        unique_names(r@),
        forall|i: int| 0 <= i < r@.len() ==> last_default(registry.defs@, (#[trigger] r@[i]).0@) == Some(r@[i].1@),
        forall|id: Seq<char>| #[trigger] last_default(registry.defs@, id) is Some ==> has_name(r@, id),
{
    let defs = &registry.defs;
    let mut out: Vec<(String, String)> = Vec::new();
    let mut k: usize = 0;
    while k < defs.len()
        invariant
            k <= defs@.len(),
            unique_names(out@),
            forall|i: int|
                0 <= i < out@.len() ==> last_default(defs@.subrange(0, k as int), (#[trigger] out@[i]).0@)
                    == Some(out@[i].1@),
            forall|id: Seq<char>| #[trigger]
                last_default(defs@.subrange(0, k as int), id) is Some ==> has_name(out@, id),
        decreases defs@.len() - k,
    {
        let def = defs[k];
        let id = def.id.to_owned();
        let default = def.default_keybind.to_owned();
        let ghost prefix = defs@.subrange(0, k + 1);
        assert(prefix.drop_last() =~= defs@.subrange(0, k as int));
        assert(prefix.last() == def);
        let ghost before = out@;
        match find_name(&out, &id) {
            Some(i) => {
                out.set(i, (id, default));
                assert forall|j: int| 0 <= j < out@.len() implies last_default(prefix, (#[trigger] out@[j]).0@)
                    == Some(out@[j].1@) by {
                    if j != i {
                        assert(before[j].0@ != before[i as int].0@);
                    }
                }
                assert forall|n: Seq<char>| #[trigger] last_default(prefix, n) is Some implies has_name(out@, n) by {
                    if n == def.id@ {
                        assert(out@[i as int].0@ == n);
                    } else {
                        assert(last_default(prefix, n) == last_default(defs@.subrange(0, k as int), n));
                        assert(has_name(before, n));
                        let w = choose|w: int| 0 <= w < before.len() && (#[trigger] before[w]).0@ == n;
                        assert(w != i);
                        assert(out@[w].0@ == n);
                    }
                }
            },
            None => {
                out.push((id, default));
                assert forall|j: int| 0 <= j < out@.len() implies last_default(prefix, (#[trigger] out@[j]).0@)
                    == Some(out@[j].1@) by {
                    if j < before.len() {
                        assert(before[j].0@ != def.id@);
                    }
                }
                assert forall|n: Seq<char>| #[trigger] last_default(prefix, n) is Some implies has_name(out@, n) by {
                    if n == def.id@ {
                        assert(out@[before.len() as int].0@ == n);
                    } else {
                        assert(last_default(prefix, n) == last_default(defs@.subrange(0, k as int), n));
                        assert(has_name(before, n));
                        let w = choose|w: int| 0 <= w < before.len() && (#[trigger] before[w]).0@ == n;
                        assert(out@[w].0@ == n);
                    }
                }
            },
        }
        k = k + 1;
    }
    assert(defs@.subrange(0, defs@.len() as int) == defs@);
    out
}


/// The binding a command gets: the configured one, else its default.
pub open spec fn command_keybind(keybinds: Seq<(String, KeyboardKeybind)>, def: CommandDef) -> Seq<ComboView> {
    match lookup_keybind(keybinds, def.id@) {
        Some(k) => k,
        None => seq![spec_parse(def.default_keybind@)],
    }
}

/// A binding that some keyboard combo can trigger: it has a combo with a key.
pub open spec fn usable(kb: Seq<ComboView>) -> bool {
    exists|i: int| 0 <= i < kb.len() && (#[trigger] kb[i]).0.len() > 0
}

/// The id, binding and action of each command built from `defs`, in order,
/// leaving out the commands whose binding no keyboard combo can trigger.
pub open spec fn built(defs: Seq<CommandDef>, keybinds: Seq<(String, KeyboardKeybind)>) -> Seq<
    (Seq<char>, Seq<ComboView>, CommandAction),
>
    decreases defs.len(),
{
    if defs.len() == 0 {
        Seq::empty()
    } else {
        let rest = built(defs.drop_last(), keybinds);
        let d = defs.last();
        let kb = command_keybind(keybinds, d);
        if usable(kb) {
            rest.push((d.id@, kb, d.handler))
        } else {
            rest
        }
    }
}

/// A command ready to run: its id, the tracker of its shortcut and its action.
#[derive(Debug)]
pub struct Command {
    pub id: String,
    pub tracker: KeyboardKeybindTracker,
    pub handler: CommandAction,
}

/// The id, binding and action of a command.
pub open spec fn command_view(c: Command) -> (Seq<char>, Seq<ComboView>, CommandAction) {
    (c.id@, c.tracker.keybind@, c.handler)
}

fn has_key_combo(kb: &KeyboardKeybind) -> (b: bool)
    ensures
        b == usable(kb@),
{
    let combos = kb.combos();
    for j in 0..combos.len()
        invariant
            combos@.map_values(|x: InputCombo| x@) == kb@,
            forall|i: int| 0 <= i < j ==> (#[trigger] kb@[i]).0.len() == 0,
    {
        if combos[j].keys().any() {
            assert(kb@[j as int] == combos@[j as int]@);
            return true;
        }
        assert(kb@[j as int] == combos@[j as int]@);
    }
    false
}

/// The commands of the registry, each with its configured shortcut or else its
/// default one; commands whose shortcut has no keyboard combo are left out.
pub fn build_commands(registry: &CommandRegistry, keybinds: &Commands) -> (r: Vec<Command>)
    ensures
        r@.map_values(|c: Command| command_view(c)) == built(registry.defs@, keybinds.entries()),
        forall|i: int| 0 <= i < r@.len() ==> !(#[trigger] r@[i]).tracker.was_pressed,
{
    let defs = &registry.defs;
    let mut out: Vec<Command> = Vec::new();
    let mut k: usize = 0;
    while k < defs.len()
        invariant
            k <= defs@.len(),
            out@.map_values(|c: Command| command_view(c)) == built(defs@.subrange(0, k as int), keybinds.entries()),
            forall|i: int| 0 <= i < out@.len() ==> !(#[trigger] out@[i]).tracker.was_pressed,
        decreases defs@.len() - k,
    {
        let def = defs[k];
        let ghost prefix = defs@.subrange(0, k + 1);
        assert(prefix.drop_last() =~= defs@.subrange(0, k as int));
        assert(prefix.last() == def);
        let id = def.id.to_owned();
        let keybind = match keybinds.position_of(&id) {
            Some(i) => keybinds.keybinds()[i].1.clone(),
            None => {
                let kb = KeyboardKeybind::from_strs(&[def.default_keybind]);
                assert(kb@ =~= seq![spec_parse(def.default_keybind@)]);
                kb
            },
        };
        assert(keybind@ == command_keybind(keybinds.entries(), def));
        if has_key_combo(&keybind) {
            let ghost before = out@;
            let c = Command { id, tracker: KeyboardKeybindTracker::new(keybind), handler: def.handler };
            assert(command_view(c) == (def.id@, command_keybind(keybinds.entries(), def), def.handler));
            out.push(c);
            assert(out@.map_values(|c: Command| command_view(c)) =~= before.map_values(|c: Command| command_view(c)).push(command_view(c)));
        }
        k = k + 1;
    }
    assert(defs@.subrange(0, defs@.len() as int) == defs@);
    out
}

/// The command that lets the assistant arrange every window: its name, id,
/// default shortcut, action, and that it needs no target window.
pub open spec fn is_organize_all_def(d: CommandDef) -> bool {
    &&& d.display_name@ == "Auto Organize All Windows"@
    &&& d.id@ == "ai_organize_all_windows"@
    &&& d.default_keybind@ == "cmd+shift+o"@
    &&& d.handler == CommandAction::OrganizeAllWindows
    &&& !d.requires_window
}

/// The command that lets the assistant place the window it is aimed at: its
/// name, id, default shortcut, action, and that it needs a target window.
pub open spec fn is_organize_current_def(d: CommandDef) -> bool {
    &&& d.display_name@ == "Auto Organize Current Window"@
    &&& d.id@ == "ai_organize_current_window"@
    &&& d.default_keybind@ == "cmd+shift+i"@
    &&& d.handler == CommandAction::OrganizeCurrentWindow
    &&& d.requires_window
}

/// The command that lets the assistant arrange every window.
pub fn ai_organize_all_windows() -> (d: CommandDef)
    ensures
        is_organize_all_def(d),
{
    CommandDef {
        display_name: "Auto Organize All Windows",
        id: "ai_organize_all_windows",
        default_keybind: "cmd+shift+o",
        requires_window: false,
        handler: CommandAction::OrganizeAllWindows,
    }
}

/// The command that lets the assistant place the window it is aimed at.
pub fn ai_organize_current_window() -> (d: CommandDef)
    ensures
        is_organize_current_def(d),
{
    CommandDef {
        display_name: "Auto Organize Current Window",
        id: "ai_organize_current_window",
        default_keybind: "cmd+shift+i",
        requires_window: true,
        handler: CommandAction::OrganizeCurrentWindow,
    }
}

/// Registers the built-in commands: organizing all windows, then the current one.
pub fn register_commands(registry: &mut CommandRegistry)
    ensures
        final(registry).defs@.len() == old(registry).defs@.len() + 2,
        final(registry).defs@.subrange(0, old(registry).defs@.len() as int) == old(registry).defs@,
        is_organize_all_def(final(registry).defs@[old(registry).defs@.len() as int]),
        is_organize_current_def(final(registry).defs@[old(registry).defs@.len() + 1int]),
        last_default(final(registry).defs@, "ai_organize_all_windows"@) == Some("cmd+shift+o"@),
        last_default(final(registry).defs@, "ai_organize_current_window"@) == Some("cmd+shift+i"@),
{
    let ghost before = registry.defs@;
    register(registry, ai_organize_all_windows());
    register(registry, ai_organize_current_window());
    assert(registry.defs@.subrange(0, old(registry).defs@.len() as int) =~= old(registry).defs@);
    proof {
        reveal_strlit("ai_organize_all_windows");
        reveal_strlit("ai_organize_current_window");
        assert("ai_organize_all_windows"@ != "ai_organize_current_window"@) by {
            assert("ai_organize_all_windows"@[12] != "ai_organize_current_window"@[12]);
        }
        let f = registry.defs@;
        assert(f.drop_last() =~= before.push(f[before.len() as int]));
        assert(f.drop_last().last() == f[before.len() as int]);
        assert(last_default(f.drop_last(), "ai_organize_all_windows"@) == Some("cmd+shift+o"@));
        assert(f.last().id@ != "ai_organize_all_windows"@);
    }
}

/// The window a command organizing the current window is aimed at: the
/// context's target, when there is a context with a target.
pub fn organize_target(context: Option<CommandContext>) -> (w: Option<WindowId>)
    ensures
        w == match context {
            Some(c) => c.target_window,
            None => None,
        },
{
    match context {
        Some(c) => c.target_window,
        None => None,
    }
}

} // verus!
