use ultrawm_core::logging::{format_log, LogLevel, TargetColors, PALETTE_SIZE};
use ultrawm_core::text::replace_all;

const RESET: &str = "\x1b[0m";

#[test]
fn terminal_info_line_colours_only_the_tag() {
    colored::control::set_override(true);
    let mut colors = TargetColors::new(PALETTE_SIZE);
    let r = format_log(LogLevel::Info, "ultrawm_core::wm", "started", &mut colors);
    let target = format!("\x1b[2m\x1b[32mwm{RESET}\x1b[2m{RESET}");
    assert_eq!(r, format!("\x1b[1;32m[I]{RESET} [{target}]  started"));
    assert_eq!(colors.targets, vec!["wm".to_string()]);
}

#[test]
fn terminal_error_line_is_bold_red_throughout() {
    colored::control::set_override(true);
    let mut colors = TargetColors::new(PALETTE_SIZE);
    format_log(LogLevel::Debug, "a::first", "x", &mut colors);
    let r = format_log(LogLevel::Error, "b::second", "boom", &mut colors);
    // the second target gets the second colour (yellow)
    let open = "\x1b[1;31m";
    let target = format!("\x1b[2m\x1b[33msecond{RESET}{open}\x1b[2m{RESET}{open}");
    assert_eq!(r, format!("{open}[E] [{target}]  boom{RESET}"));
}

#[test]
fn terminal_warning_without_target() {
    colored::control::set_override(true);
    let mut colors = TargetColors::new(PALETTE_SIZE);
    let r = format_log(LogLevel::Warn, "", "careful", &mut colors);
    assert_eq!(r, format!("\x1b[1;33m[W]  careful{RESET}"));
    assert!(colors.targets.is_empty());
}

#[test]
fn terminal_trace_tag_is_replaced_everywhere() {
    colored::control::set_override(true);
    let mut colors = TargetColors::new(PALETTE_SIZE);
    let r = format_log(LogLevel::Trace, "", "see [T]", &mut colors);
    let tag = format!("\x1b[1;37m[T]{RESET}");
    assert_eq!(r, format!("{tag}  see {tag}"));
}

#[test]
fn replace_all_takes_matches_from_the_left() {
    assert_eq!(replace_all("aaa", "aa", "b"), "ba");
    assert_eq!(replace_all("x[I]y[I]", "[I]", "<>"), "x<>y<>");
    assert_eq!(replace_all("abc", "z", "y"), "abc");
    assert_eq!(replace_all("", "z", "y"), "");
}
