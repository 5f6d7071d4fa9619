use ultrawm_core::ai::client::{strip_markdown_code_block, AiClientError, AiClientSettings, ChatMessage};
use ultrawm_core::config::config::{Config, F32_ONE_BITS, F32_POINT_EIGHT_BITS};
use ultrawm_core::event_loop::{flush_interval_ms, plan_event, Dispatcher, LoopControl, WindowAction};
use ultrawm_core::geometry::Position;
use ultrawm_core::platform::{ContextMenuRequest, WMEvent};

#[test]
fn strip_plain_text() {
    assert_eq!(strip_markdown_code_block("  hello  "), "hello");
}

#[test]
fn strip_yaml_block() {
    assert_eq!(strip_markdown_code_block("```yaml\na: 1\nb: 2\n```"), "a: 1\nb: 2");
}

#[test]
fn strip_block_without_closing_fence() {
    assert_eq!(strip_markdown_code_block("```\nx: y\n"), "x: y");
}

#[test]
fn strip_block_on_one_line() {
    assert_eq!(strip_markdown_code_block("```abc```"), "abc");
    assert_eq!(strip_markdown_code_block("```"), "");
}

#[test]
fn ai_settings_validation() {
    let s = |e: bool, u: &str, k: &str| AiClientSettings::from_config(e, u.to_string(), k.to_string(), "m".to_string());
    assert_eq!(s(false, "u", "k").err(), Some(AiClientError::NotEnabled));
    assert_eq!(s(true, "", "k").err(), Some(AiClientError::NoApiUrl));
    assert_eq!(s(true, "u", "").err(), Some(AiClientError::NoApiKey));
    let ok = s(true, "http://x", "key").unwrap();
    assert_eq!((ok.api_url.as_str(), ok.api_key.as_str(), ok.model.as_str()), ("http://x", "key", "m"));
    let m = ChatMessage { role: "user".to_string(), content: "hi".to_string() };
    assert_eq!(m.role, "user");
}

#[test]
fn event_plans() {
    let p = plan_event(None);
    assert_eq!(p.control, LoopControl::Break);
    let p = plan_event(Some(&WMEvent::Shutdown));
    assert_eq!(p.control, LoopControl::Break);
    assert!(!p.dispatch);
    let p = plan_event(Some(&WMEvent::ConfigChanged));
    assert!(p.reload_config && p.dispatch);
    assert_eq!(p.control, LoopControl::Continue);
    assert_eq!(plan_event(Some(&WMEvent::WindowOpened(3))).window_action, Some(WindowAction::Track(3)));
    assert_eq!(plan_event(Some(&WMEvent::WindowShown(3))).window_action, Some(WindowAction::Unhide(3)));
    assert_eq!(plan_event(Some(&WMEvent::WindowHidden(3))).window_action, Some(WindowAction::Remove(3)));
    assert_eq!(plan_event(Some(&WMEvent::WindowClosed(3))).window_action, Some(WindowAction::Remove(3)));
    let r = ContextMenuRequest { position: Position::new(1, 2), target_window: None };
    let p = plan_event(Some(&WMEvent::ShowContextMenu(r)));
    assert_eq!(p.context_menu, Some(r));
}

#[test]
fn flush_interval_from_fps() {
    assert_eq!(flush_interval_ms(30), 33);
    assert_eq!(flush_interval_ms(0), 1000);
    assert_eq!(flush_interval_ms(1000), 1);
    assert_eq!(flush_interval_ms(5000), 0);
}

#[test]
fn dispatcher_scans_then_sticks() {
    let mut d = Dispatcher::new(3);
    assert_eq!(d.first(), Some(0));
    assert_eq!(d.after_call(0, false), Some(1));
    assert_eq!(d.after_call(1, true), None);
    assert_eq!(d.current_handler, Some(1));
    // the next event goes to handler 1 alone
    assert_eq!(d.first(), Some(1));
    assert_eq!(d.after_call(1, true), None);
    assert_eq!(d.current_handler, Some(1));
    // once it declines, the scan starts over
    assert_eq!(d.after_call(1, false), None);
    assert_eq!(d.current_handler, None);
    assert_eq!(d.first(), Some(0));
    assert_eq!(d.after_call(0, false), Some(1));
    assert_eq!(d.after_call(1, false), Some(2));
    assert_eq!(d.after_call(2, false), None);
    d.reset(0);
    assert_eq!(d.first(), None);
}

#[test]
fn config_defaults() {
    let c = Config::default();
    assert_eq!((c.window_gap, c.partition_gap), (20, 40));
    assert!(c.persistence && c.float_new_windows && !c.focus_on_hover);
    assert_eq!(c.resize_handle_width, 25);
    assert_eq!(f32::from_bits(c.resize_handle_opacity_bits), 0.8);
    assert_eq!(f32::from_bits(F32_POINT_EIGHT_BITS), 0.8);
    assert_eq!(f32::from_bits(F32_ONE_BITS), 1.0);
    assert_eq!(f32::from_bits(c.ai.temperature_bits), 1.0);
    assert_eq!(c.mod_transform_bindings.tile.combos()[0].to_combo_string(), "ctrl+lmb");
    assert_eq!(c.resize_handle_bindings.resize_after_symmetric.combos()[0].to_combo_string(), "rmb+mmb");
    assert!(c.commands.keybinds().is_empty());
    assert!(!c.ai.enabled);
}
