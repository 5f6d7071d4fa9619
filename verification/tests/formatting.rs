use ultrawm_core::accelerator::{get_command_accelerator, keybind_to_accelerator, Accelerator, AcceleratorModifiers};
use ultrawm_core::commands::{CommandAction, CommandContext, CommandDef};
use ultrawm_core::config::config::{Commands, Config};
use ultrawm_core::config::keybind::KeyboardKeybind;
use ultrawm_core::geometry::Position;
use ultrawm_core::input::KeyCode;
use ultrawm_core::logging::{
    format_log_plain, level_enabled, level_tag, log_line, short_target, LogLevel, TargetColors,
};
use ultrawm_core::menu::{route_menu_event, tray_toggles, ConfigToggle, MenuCallbacks, MenuRoute};
use ultrawm_core::platform::ContextMenuRequest;
use ultrawm_core::text::{append_decimal, append_signed_decimal};

fn mods(control: bool, shift: bool, alt: bool, super_key: bool) -> AcceleratorModifiers {
    AcceleratorModifiers { control, shift, alt, super_key }
}

#[test]
fn decimal_numbers() {
    let mut s = String::new();
    append_decimal(&mut s, 0);
    assert_eq!(s, "0");
    let mut s = String::from("n=");
    append_decimal(&mut s, 1234567890123);
    assert_eq!(s, "n=1234567890123");
    let mut s = String::new();
    append_decimal(&mut s, u64::MAX);
    assert_eq!(s, u64::MAX.to_string());
}

#[test]
fn signed_decimal_numbers() {
    for x in [0i32, 7, -7, 120, -3450, i32::MAX, i32::MIN] {
        let mut s = String::new();
        append_signed_decimal(&mut s, x);
        assert_eq!(s, x.to_string());
    }
}

#[test]
fn log_levels_by_mode() {
    assert!(level_enabled(true, false, LogLevel::Info));
    assert!(!level_enabled(true, false, LogLevel::Debug));
    assert!(level_enabled(false, true, LogLevel::Trace));
    assert!(level_enabled(false, false, LogLevel::Debug));
    assert!(!level_enabled(false, false, LogLevel::Trace));
    assert!(level_enabled(true, true, LogLevel::Error));
    assert!(!level_enabled(true, true, LogLevel::Trace));
}

#[test]
fn log_level_tags() {
    assert_eq!(level_tag(LogLevel::Error), "[E]");
    assert_eq!(level_tag(LogLevel::Warn), "[W]");
    assert_eq!(level_tag(LogLevel::Info), "[I]");
    assert_eq!(level_tag(LogLevel::Debug), "[D]");
    assert_eq!(level_tag(LogLevel::Trace), "[T]");
}

#[test]
fn log_short_targets() {
    assert_eq!(short_target("ultrawm_core::event_loop_wm"), "event_loop_wm");
    assert_eq!(short_target("a::b::c"), "c");
    assert_eq!(short_target("plain"), "plain");
    assert_eq!(short_target("trailing::"), "");
    assert_eq!(short_target(""), "");
}

#[test]
fn log_target_colors_cycle() {
    let mut c = TargetColors::new(2);
    assert_eq!(c.color_for(&"a".to_string()), 0);
    assert_eq!(c.color_for(&"b".to_string()), 1);
    assert_eq!(c.color_for(&"c".to_string()), 0);
    assert_eq!(c.color_for(&"b".to_string()), 1);
    assert_eq!(c.targets.len(), 3);
}

#[test]
fn accelerator_from_first_combo() {
    let kb = KeyboardKeybind::from_strs(&["ctrl+shift+a", "alt+b"]);
    let a = keybind_to_accelerator(&kb).unwrap();
    assert_eq!(a, Accelerator { modifiers: mods(true, true, false, false), key: KeyCode::KeyA });
}

#[test]
fn accelerator_first_named_key() {
    let kb = KeyboardKeybind::from_strs(&["super+f5+x"]);
    let a = keybind_to_accelerator(&kb).unwrap();
    assert_eq!(a.key, KeyCode::F5);
    assert_eq!(a.modifiers, mods(false, false, false, true));
}

#[test]
fn accelerator_needs_a_key() {
    assert_eq!(keybind_to_accelerator(&KeyboardKeybind::from_strs(&["ctrl+alt"])), None);
    assert_eq!(keybind_to_accelerator(&KeyboardKeybind::empty()), None);
}

#[test]
fn command_accelerator_prefers_configuration() {
    let def = CommandDef {
        display_name: "Test",
        id: "test_cmd",
        default_keybind: "ctrl+t",
        handler: CommandAction::OrganizeAllWindows,
        requires_window: false,
    };
    let none = Commands::new();
    let a = get_command_accelerator(&none, &def).unwrap();
    assert_eq!(a, Accelerator { modifiers: mods(true, false, false, false), key: KeyCode::KeyT });
    let mut configured = Commands::new();
    configured.insert("test_cmd".to_string(), KeyboardKeybind::from_strs(&["alt+q"]));
    let a = get_command_accelerator(&configured, &def).unwrap();
    assert_eq!(a, Accelerator { modifiers: mods(false, false, true, false), key: KeyCode::KeyQ });
}

#[test]
fn menu_routes() {
    let mut callbacks: MenuCallbacks<u32> = MenuCallbacks::new();
    callbacks.register_callback("cmd:close".to_string(), 1);
    assert_eq!(route_menu_event("cmd:close", &callbacks, None), MenuRoute::Callback);
    assert_eq!(route_menu_event("reload", &callbacks, None), MenuRoute::Unhandled);
    assert_eq!(route_menu_event("cmd", &callbacks, None), MenuRoute::Unhandled);
    assert_eq!(
        route_menu_event("cmd:float_window", &callbacks, None),
        MenuRoute::Command { id: "float_window".to_string(), context: None }
    );
    let on_window = ContextMenuRequest { position: Position::new(5, 6), target_window: Some(42) };
    assert_eq!(
        route_menu_event("cmd:close_window", &callbacks, Some(on_window)),
        MenuRoute::Command { id: "close_window".to_string(), context: Some(CommandContext::with_window(42)) }
    );
    let on_desktop = ContextMenuRequest { position: Position::new(5, 6), target_window: None };
    assert_eq!(
        route_menu_event("cmd:", &callbacks, Some(on_desktop)),
        MenuRoute::Command { id: String::new(), context: Some(CommandContext::with_position(Position::new(5, 6))) }
    );
}

#[test]
fn menu_callbacks_replace_by_id() {
    let mut callbacks: MenuCallbacks<&str> = MenuCallbacks::new();
    callbacks.register_callback("quit".to_string(), "first");
    callbacks.register_callback("reload".to_string(), "reload");
    callbacks.register_callback("quit".to_string(), "second");
    assert_eq!(callbacks.get("quit"), Some(&"second"));
    assert_eq!(callbacks.get("reload"), Some(&"reload"));
    assert_eq!(callbacks.get("open"), None);
    assert_eq!(callbacks.entries.len(), 2);
}

#[test]
fn tray_check_items() {
    let t = tray_toggles();
    let labels: Vec<&str> = t.iter().map(|x| x.0).collect();
    assert_eq!(labels, vec!["Persistence", "Live Window Resize", "Resize Handles", "Float New Windows", "Focus on Hover"]);
    let mut c = Config::default();
    assert!(ConfigToggle::Persistence.get(&c));
    ConfigToggle::Persistence.toggle(&mut c);
    assert!(!c.persistence);
    assert!(!ConfigToggle::FocusOnHover.get(&c));
    ConfigToggle::FocusOnHover.toggle(&mut c);
    assert!(c.focus_on_hover);
    ConfigToggle::FocusOnHover.toggle(&mut c);
    assert!(!c.focus_on_hover);
    assert!(!c.persistence);
    assert!(c.resize_handles && c.live_window_resize && c.float_new_windows);
}

#[test]
fn plain_log_lines() {
    assert_eq!(format_log_plain(LogLevel::Info, "ultrawm_core::wm", "started"), "[I] [wm]  started");
    assert_eq!(format_log_plain(LogLevel::Error, "", "boom"), "[E]  boom");
    assert_eq!(format_log_plain(LogLevel::Trace, "a::", "x"), "[T] []  x");
    assert_eq!(log_line("[W]", "[t]", "m"), "[W] [t]  m");
    assert_eq!(log_line("[D]", "", ""), "[D]  ");
}
