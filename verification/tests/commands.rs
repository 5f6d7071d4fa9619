use ultrawm_core::commands::{
    ai_organize_all_windows, ai_organize_current_window, build_commands, get_defaults, organize_target,
    register, register_commands, CommandAction, CommandContext, CommandDef, CommandRegistry,
};
use ultrawm_core::config::config::Commands;
use ultrawm_core::config::keybind::KeyboardKeybind;
use ultrawm_core::event_handlers::command_handler::CommandHandler;
use ultrawm_core::geometry::Position;
use ultrawm_core::input::{KeyCode, MouseButton};
use ultrawm_core::platform::{InputState, WMEvent};

fn registry() -> CommandRegistry {
    let mut r = CommandRegistry::new();
    register_commands(&mut r);
    r
}

fn input(keys: &[KeyCode]) -> InputState {
    let mut s = InputState::new();
    for k in keys {
        s.keys.add(k);
    }
    s
}

#[test]
fn command_context_constructors() {
    let c = CommandContext::new();
    assert!(c.target_window.is_none() && c.position.is_none());
    let c = CommandContext::with_window(4);
    assert_eq!(c.target_window, Some(4));
    let c = CommandContext::with_position(Position::new(1, 2));
    assert_eq!(c.position, Some(Position::new(1, 2)));
    let c = CommandContext::with_window_and_position(4, Position::new(1, 2));
    assert_eq!((c.target_window, c.position), (Some(4), Some(Position::new(1, 2))));
}

#[test]
fn builtin_commands_are_registered_in_order() {
    let r = registry();
    assert_eq!(r.defs.len(), 2);
    assert_eq!(r.defs[0].id, "ai_organize_all_windows");
    assert_eq!(r.defs[0].default_keybind, "cmd+shift+o");
    assert!(!r.defs[0].requires_window);
    assert_eq!(r.defs[1].id, "ai_organize_current_window");
    assert!(r.defs[1].requires_window);
    assert_eq!(ai_organize_all_windows().handler, CommandAction::OrganizeAllWindows);
    assert_eq!(ai_organize_current_window().handler, CommandAction::OrganizeCurrentWindow);
}

#[test]
fn defaults_keep_the_last_registration_of_an_id() {
    let mut r = registry();
    register(
        &mut r,
        CommandDef {
            display_name: "Again",
            id: "ai_organize_all_windows",
            default_keybind: "ctrl+9",
            handler: CommandAction::OrganizeAllWindows,
            requires_window: false,
        },
    );
    let d = get_defaults(&r);
    assert_eq!(d.len(), 2);
    let all = d.iter().find(|(id, _)| id == "ai_organize_all_windows").unwrap();
    assert_eq!(all.1, "ctrl+9");
    let cur = d.iter().find(|(id, _)| id == "ai_organize_current_window").unwrap();
    assert_eq!(cur.1, "cmd+shift+i");
}

#[test]
fn fill_defaults_keeps_configured_shortcuts() {
    let r = registry();
    let mut c = Commands::new();
    c.insert("ai_organize_all_windows".to_string(), KeyboardKeybind::from_strs(&["alt+o"]));
    c.fill_defaults(&r);
    assert_eq!(c.keybinds().len(), 2);
    assert_eq!(c.keybinds()[0].0, "ai_organize_all_windows");
    assert_eq!(c.keybinds()[0].1.combos()[0].to_combo_string(), "alt+o");
    assert_eq!(c.keybinds()[1].0, "ai_organize_current_window");
    assert_eq!(c.keybinds()[1].1.combos()[0].to_combo_string(), "shift+cmd+i");
}

#[test]
fn build_commands_leaves_out_unusable_shortcuts() {
    let r = registry();
    let mut c = Commands::new();
    c.insert("ai_organize_current_window".to_string(), KeyboardKeybind::from_strs(&["lmb"]));
    let cmds = build_commands(&r, &c);
    assert_eq!(cmds.len(), 1);
    assert_eq!(cmds[0].id, "ai_organize_all_windows");
    assert_eq!(cmds[0].handler, CommandAction::OrganizeAllWindows);
    let empty = Commands::new();
    assert_eq!(build_commands(&r, &empty).len(), 2);
}

#[test]
fn command_handler_runs_on_key_press_once() {
    let r = registry();
    let mut h = CommandHandler::new(&r, &Commands::new());
    let held = input(&[KeyCode::SuperLeft, KeyCode::ShiftLeft, KeyCode::KeyI]);
    let d = h.handle_event(&WMEvent::KeyDown(KeyCode::KeyI), &held, &r, &Commands::new());
    assert!(d.handled);
    assert_eq!(d.run, Some(CommandAction::OrganizeCurrentWindow));
    assert!(d.context.is_none());
    let d = h.handle_event(&WMEvent::KeyDown(KeyCode::KeyI), &held, &r, &Commands::new());
    assert!(!d.handled);
    assert!(d.run.is_none());
}

#[test]
fn command_handler_runs_triggered_commands() {
    let r = registry();
    let mut h = CommandHandler::new(&r, &Commands::new());
    assert_eq!(h.execute_command(&"ai_organize_all_windows".to_string()), Some(CommandAction::OrganizeAllWindows));
    assert_eq!(h.execute_command(&"unknown".to_string()), None);
    let ctx = Some(CommandContext::with_window(3));
    let d = h.handle_event(
        &WMEvent::CommandTriggered("ai_organize_current_window".to_string(), ctx),
        &InputState::new(),
        &r,
        &Commands::new(),
    );
    assert!(d.handled);
    assert_eq!(d.run, Some(CommandAction::OrganizeCurrentWindow));
    assert_eq!(d.context, ctx);
    let d = h.handle_event(&WMEvent::MouseDown(Position::new(0, 0), MouseButton::Left), &InputState::new(), &r, &Commands::new());
    assert!(!d.handled);
}

#[test]
fn command_handler_rebuilds_on_config_change() {
    let r = registry();
    let mut h = CommandHandler::new(&r, &Commands::new());
    assert_eq!(h.commands.len(), 2);
    let mut c = Commands::new();
    c.insert("ai_organize_all_windows".to_string(), KeyboardKeybind::empty());
    let d = h.handle_event(&WMEvent::ConfigChanged, &InputState::new(), &r, &c);
    assert!(!d.handled);
    assert_eq!(h.commands.len(), 1);
}

#[test]
fn organize_target_needs_context_and_window() {
    assert_eq!(organize_target(None), None);
    assert_eq!(organize_target(Some(CommandContext::new())), None);
    assert_eq!(organize_target(Some(CommandContext::with_window(9))), Some(9));
}

#[test]
fn registered_commands_have_their_names_and_shortcuts() {
    let mut r = CommandRegistry::new();
    register(
        &mut r,
        CommandDef {
            display_name: "Earlier",
            id: "earlier",
            default_keybind: "ctrl+e",
            handler: CommandAction::OrganizeAllWindows,
            requires_window: false,
        },
    );
    register_commands(&mut r);
    assert_eq!(r.defs.len(), 3);
    assert_eq!(r.defs[0].id, "earlier");
    assert_eq!(r.defs[1].display_name, "Auto Organize All Windows");
    assert_eq!(r.defs[2].display_name, "Auto Organize Current Window");
    assert_eq!(r.defs[2].default_keybind, "cmd+shift+i");
    let d = get_defaults(&r);
    assert!(d.iter().any(|(id, kb)| id == "ai_organize_all_windows" && kb == "cmd+shift+o"));
    assert!(d.iter().any(|(id, kb)| id == "ai_organize_current_window" && kb == "cmd+shift+i"));
    let c = ai_organize_current_window();
    assert_eq!((c.id, c.default_keybind, c.requires_window), ("ai_organize_current_window", "cmd+shift+i", true));
}
