use vstd::prelude::*;
use crate::commands::{
    build_commands, built, command_view, unique_names, Command, CommandAction, CommandContext, CommandRegistry,
};
use crate::config::config::Commands;
use crate::platform::{spec_binding_matches, InputState, WMEvent};

verus! {

/// What the command handler decided for an event: the command to run, with
/// its context, and whether the event was handled.
#[derive(Debug, Clone, Copy, PartialEq, Eq, Structural)]
pub struct CommandDispatch {
    pub run: Option<CommandAction>,
    pub context: Option<CommandContext>,
    pub handled: bool,
}

/// The action of the first command named `id`.
pub open spec fn spec_find_command(cmds: Seq<Command>, id: Seq<char>) -> Option<CommandAction>
    decreases cmds.len(),
{
    if cmds.len() == 0 {
        None
    } else {
        match spec_find_command(cmds.drop_last(), id) {
            Some(a) => Some(a),
            None => if cmds.last().id@ == id {
                Some(cmds.last().handler)
            } else {
                None
            },
        }
    }
}

/// The command's shortcut is held.
#[verifier::opaque]
pub open spec fn shortcut_held(c: Command, input: InputState) -> bool {
    spec_binding_matches(c.tracker.keybind@, input.keys@, input.buttons@)
}

/// The command's shortcut has just become held.
pub open spec fn just_pressed(c: Command, input: InputState) -> bool {
    shortcut_held(c, input) && !c.tracker.was_pressed
}

/// The position of the first command from `i` on whose shortcut has just become held.
pub open spec fn first_just_pressed(cmds: Seq<Command>, input: InputState, i: int) -> Option<int>
    decreases cmds.len() - i,
{
    if i < 0 || i >= cmds.len() {
        None
    } else if just_pressed(cmds[i], input) {
        Some(i)
    } else {
        first_just_pressed(cmds, input, i + 1)
    }
}

/// `after` is `before` with the shortcut state of the first `upto` commands
/// brought up to date with `input`.
pub open spec fn polled(before: Seq<Command>, after: Seq<Command>, input: InputState, upto: int) -> bool {
    &&& after.len() == before.len()
    &&& forall|i: int|
        0 <= i < before.len() ==> {
            &&& (#[trigger] after[i]).id == before[i].id
            &&& after[i].handler == before[i].handler
            &&& after[i].tracker.keybind@ == before[i].tracker.keybind@
            &&& after[i].tracker.was_pressed == if i < upto {
                shortcut_held(before[i], input)
            } else {
                before[i].tracker.was_pressed
            }
        }
}

/// Checks the shortcuts in order, bringing each up to date, and stops at the
/// first one that has just become held.
fn poll_shortcuts(commands: &mut Vec<Command>, input: &InputState) -> (r: Option<usize>)
    ensures
        r == match first_just_pressed(old(commands)@, *input, 0) {
            Some(f) => Some(f as usize),
            None => None::<usize>,
        },
        polled(old(commands)@, final(commands)@, *input, match r {
            Some(f) => f + 1,
            None => old(commands)@.len() as int,
        }),
{
    let n = commands.len();
    let ghost orig = commands@;
    let mut i: usize = 0;
    assert(polled(orig, commands@, *input, 0));
    while i < n
        invariant
            orig == old(commands)@,
            n == orig.len(),
            i <= n,
            polled(orig, commands@, *input, i as int),
            first_just_pressed(orig, *input, 0) == first_just_pressed(orig, *input, i as int),
        decreases n - i,
    {
        let ghost before = commands@;
        let pressed = commands[i].tracker.was_just_pressed(input);
        assert(commands@ == before.update(i as int, commands@[i as int]));
        assert(commands@[i as int].tracker.was_pressed == shortcut_held(orig[i as int], *input)) by {
            reveal(shortcut_held);
        }
        if pressed {
            assert(just_pressed(orig[i as int], *input)) by {
                reveal(shortcut_held);
            }
            assert(first_just_pressed(orig, *input, i as int) == Some(i as int));
            assert(polled(orig, commands@, *input, i + 1));
            return Some(i);
        }
        assert(!just_pressed(orig[i as int], *input)) by {
            reveal(shortcut_held);
        }
        assert(first_just_pressed(orig, *input, i as int) == first_just_pressed(orig, *input, i + 1));
        assert(polled(orig, commands@, *input, i + 1));
        i = i + 1;
    }
    assert(first_just_pressed(orig, *input, n as int) is None);
    None
}

/// The first command found is among those searched.
proof fn lemma_first_in_range(cmds: Seq<Command>, input: InputState, i: int)
    ensures
        first_just_pressed(cmds, input, i) matches Some(f) ==> 0 <= i <= f < cmds.len(),
    decreases cmds.len() - i,
{
    if 0 <= i < cmds.len() && !just_pressed(cmds[i], input) {
        lemma_first_in_range(cmds, input, i + 1);
    }
}

/// Runs the commands bound to keyboard shortcuts or triggered from menus.
#[derive(Debug)]
pub struct CommandHandler {
    pub commands: Vec<Command>,
}

impl CommandHandler {
    /// The commands of the registry with the configured shortcuts.
    pub fn new(registry: &CommandRegistry, keybinds: &Commands) -> (h: CommandHandler)
        ensures
            h.commands@.map_values(|c: Command| command_view(c)) == built(registry.defs@, keybinds.entries()),
    {
        CommandHandler { commands: build_commands(registry, keybinds) }
    }

    /// The action of the command named `command_id`, if there is one.
    pub fn execute_command(&self, command_id: &String) -> (r: Option<CommandAction>)
        ensures
            r == spec_find_command(self.commands@, command_id@),
    {
        let mut i: usize = 0;
        while i < self.commands.len()
            invariant
                i <= self.commands@.len(),
                spec_find_command(self.commands@.subrange(0, i as int), command_id@) is None,
            decreases self.commands@.len() - i,
        {
            let ghost prefix = self.commands@.subrange(0, i + 1);
            assert(prefix.drop_last() =~= self.commands@.subrange(0, i as int));
            if self.commands[i].id == *command_id {
                proof {
                    lemma_find_prefix(self.commands@, i as int + 1, command_id@);
                }
                return Some(self.commands[i].handler);
            }
            i = i + 1;
        }
        assert(self.commands@.subrange(0, self.commands@.len() as int) == self.commands@);
        None
    }

    /// Handles `event` with the keys and buttons held in `input`. On a key event
    /// the first command whose shortcut has just become held runs; a triggered
    /// command runs with its context; a configuration change rebuilds the
    /// commands from the registry and the new shortcuts.
    pub fn handle_event(
        &mut self,
        event: &WMEvent,
        input: &InputState,
        registry: &CommandRegistry,
        keybinds: &Commands,
    ) -> (r: CommandDispatch)
        ensures
            match *event {
                WMEvent::KeyDown(_) | WMEvent::KeyUp(_) => {
                    let f = first_just_pressed(old(self).commands@, *input, 0);
                    &&& polled(old(self).commands@, final(self).commands@, *input, match f {
                        Some(f) => f + 1,
                        None => old(self).commands@.len() as int,
                    })
                    &&& r == match f {
                        Some(f) => CommandDispatch {
                            run: Some(old(self).commands@[f].handler),
                            context: None,
                            handled: true,
                        },
                        None => CommandDispatch { run: None, context: None, handled: false },
                    }
                },
                WMEvent::CommandTriggered(id, ctx) => {
                    &&& final(self).commands@ == old(self).commands@
                    &&& r == match spec_find_command(old(self).commands@, id@) {
                        Some(a) => CommandDispatch { run: Some(a), context: ctx, handled: true },
                        None => CommandDispatch { run: None, context: None, handled: false },
                    }
                },
                WMEvent::ConfigChanged => {
                    &&& final(self).commands@.map_values(|c: Command| command_view(c)) == built(registry.defs@, keybinds.entries())
                    &&& r == CommandDispatch { run: None, context: None, handled: false }
                },
                _ => final(self).commands@ == old(self).commands@ && r == CommandDispatch { run: None, context: None, handled: false },
            },
    {
        match event {
            WMEvent::KeyDown(_) | WMEvent::KeyUp(_) => {
                let ghost before = self.commands@;
                // the number of commands bounds the position of the one found
                let count = self.commands.len();
                proof {
                    lemma_first_in_range(before, *input, 0);
                }
                let polled_at = poll_shortcuts(&mut self.commands, input);
                let ghost first = first_just_pressed(before, *input, 0);
                assert(polled(before, self.commands@, *input, match first {
                    Some(f) => f + 1,
                    None => before.len() as int,
                })) by {
                    match first {
                        Some(f) => {
                            assert(f < count);
                            assert(polled_at == Some(f as usize));
                            assert(f as usize as int == f);
                        },
                        None => {},
                    }
                }
                match polled_at {
                    Some(f) => {
                        assert(self.commands@[f as int].handler == before[f as int].handler);
                        CommandDispatch { run: Some(self.commands[f].handler), context: None, handled: true }
                    },
                    None => CommandDispatch { run: None, context: None, handled: false },
                }
            },
            WMEvent::CommandTriggered(command_id, context) => {
                match self.execute_command(command_id) {
                    Some(a) => CommandDispatch { run: Some(a), context: *context, handled: true },
                    None => CommandDispatch { run: None, context: None, handled: false },
                }
            },
            WMEvent::ConfigChanged => {
                self.commands = build_commands(registry, keybinds);
                CommandDispatch { run: None, context: None, handled: false }
            },
            _ => CommandDispatch { run: None, context: None, handled: false },
        }
    }
}

/// A command named `id` at `k - 1`, after none in the first `k - 1`, is the one found.
proof fn lemma_find_prefix(cmds: Seq<Command>, k: int, id: Seq<char>)
    requires
        0 < k <= cmds.len(),
        spec_find_command(cmds.subrange(0, k - 1), id) is None,
        cmds[k - 1].id@ == id,
    ensures
        spec_find_command(cmds, id) == Some(cmds[k - 1].handler),
    decreases cmds.len() - k,
{
    let p = cmds.subrange(0, k);
    assert(p.drop_last() =~= cmds.subrange(0, k - 1));
    assert(spec_find_command(p, id) == Some(cmds[k - 1].handler));
    lemma_find_extends(cmds, k, id);
}

/// Once found in a prefix, a command stays the one found.
proof fn lemma_find_extends(cmds: Seq<Command>, k: int, id: Seq<char>)
    requires
        0 <= k <= cmds.len(),
        spec_find_command(cmds.subrange(0, k), id) is Some,
    ensures
        spec_find_command(cmds, id) == spec_find_command(cmds.subrange(0, k), id),
    decreases cmds.len() - k,
{
    if k < cmds.len() {
        let q = cmds.subrange(0, k + 1);
        assert(q.drop_last() =~= cmds.subrange(0, k));
        lemma_find_extends(cmds, k + 1, id);
    } else {
        assert(cmds.subrange(0, k) =~= cmds);
    }
}

} // verus!
