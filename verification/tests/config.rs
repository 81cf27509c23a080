use gar::config::keys::{parse_color, parse_keyspec, Action, MOD_ALT, MOD_CONTROL, MOD_SHIFT, MOD_SUPER};
use gar::config::rules::{RuleActions, WindowMatch, WindowRule};
use gar::config::state::{action_from_table, LuaState};
use gar::config::{Config, ConfigKey, ConfigValue};
use gar::text::str_eq_ignore_ascii_case;
use gar::wm::rules::{check_rules, rule_matches};

#[test]
fn colors_with_and_without_hash() {
    assert_eq!(parse_color("#5294e2"), Some(0x5294e2));
    assert_eq!(parse_color("FF0000"), Some(0xff0000));
    assert_eq!(parse_color("##abc"), Some(0xabc));
    assert_eq!(parse_color("#12345g"), None);
    assert_eq!(parse_color("#123456789"), None);
    assert_eq!(parse_color(""), None);
}

#[test]
fn key_specifications() {
    assert_eq!(parse_keyspec("mod+Return"), Some((MOD_SUPER, 0xff0d)));
    assert_eq!(parse_keyspec("mod+shift+q"), Some((MOD_SUPER | MOD_SHIFT, 0x71)));
    assert_eq!(parse_keyspec("ctrl+alt+Delete"), Some((MOD_CONTROL | MOD_ALT, 0xffff)));
    assert_eq!(parse_keyspec("MOD+1"), Some((MOD_SUPER, 0x31)));
    assert_eq!(parse_keyspec("mod+shift"), None);
    assert_eq!(parse_keyspec("mod+nosuchkey"), None);
}

#[test]
fn settings_by_name() {
    let mut c = Config::default();
    assert!(c.set_option("border_width", ConfigValue::Integer(4)));
    assert_eq!(c.border_width, 4);
    assert!(c.set_option("border_color_focused", ConfigValue::Text("#ff0000".to_string())));
    assert_eq!(c.border_color_focused, 0xff0000);
    assert!(c.set_option("border_color_focused", ConfigValue::Text("nonsense".to_string())));
    assert_eq!(c.border_color_focused, 0xff0000);
    assert!(c.set_option("gap_inner", ConfigValue::Integer(8)));
    assert_eq!(c.gap_inner, 8);
    assert!(c.set_option("follow_window_on_move", ConfigValue::Boolean(true)));
    assert!(c.follow_window_on_move);
    assert!(!c.set_option("no_such_setting", ConfigValue::Integer(1)));
    assert_eq!(c.border_width, 4);
    assert_eq!(ConfigKey::parse("gap_outer"), Some(ConfigKey::GapOuter));
    assert_eq!(ConfigKey::parse("GAP_OUTER"), None);
}

#[test]
fn defaults() {
    let c = Config::default();
    assert_eq!(c.border_width, 2);
    assert_eq!(c.border_color_focused, 0x5294e2);
    assert_eq!(c.screen_timeout_seconds, 600);
    assert!(!c.titlebar_enabled);
}

#[test]
fn actions_from_binding_tables() {
    assert!(matches!(action_from_table("close_window", None, None, None, None), Some(Action::CloseWindow)));
    match action_from_table("resize", Some("left".to_string()), None, None, None) {
        Some(Action::Resize(d, a)) => {
            assert_eq!(d, "left");
            assert_eq!(a, 500);
        },
        _ => panic!("resize"),
    }
    assert!(matches!(action_from_table("workspace", None, None, Some(4), None), Some(Action::Workspace(4))));
    assert!(matches!(action_from_table("workspace", None, None, None, None), Some(Action::Workspace(1))));
    assert!(action_from_table("teleport", None, None, None, None).is_none());
}

#[test]
fn exec_once_runs_a_command_once() {
    let mut s = LuaState::new();
    assert!(s.exec_once("picom".to_string()));
    assert!(!s.exec_once("picom".to_string()));
    assert!(s.ran_once(&"picom".to_string()));
    assert!(s.exec_once("dunst".to_string()));
    s.reset();
    assert!(!s.exec_once("picom".to_string()));
}

#[test]
fn window_rules() {
    let firefox = WindowMatch { class: Some("firefox".to_string()), instance: None, title: None };
    assert!(rule_matches(&firefox, "Firefox", "Navigator", "Mozilla Firefox"));
    assert!(!rule_matches(&firefox, "Chromium", "chromium", "Google"));
    let empty = WindowMatch::default();
    assert!(!rule_matches(&empty, "x", "y", "z"));
    let rules = vec![
        WindowRule { match_criteria: firefox, actions: RuleActions { floating: None, workspace: Some(2) } },
        WindowRule {
            match_criteria: WindowMatch { class: None, instance: None, title: Some("picture".to_string()) },
            actions: RuleActions { floating: Some(true), workspace: None },
        },
    ];
    let r = check_rules(&rules, "Firefox", "Navigator", "Picture-in-Picture");
    assert_eq!(r, RuleActions { floating: Some(true), workspace: Some(2) });
    assert_eq!(check_rules(&rules, "xterm", "xterm", "bash"), RuleActions::none());
}

#[test]
fn text_helpers() {
    assert_eq!(parse_keyspec("SHIFT+Q"), Some((MOD_SHIFT, 0x71)));
    assert!(str_eq_ignore_ascii_case("HDMI-1", "hdmi-1"));
    assert!(!str_eq_ignore_ascii_case("HDMI-1", "hdmi-2"));
}
