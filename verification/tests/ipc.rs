use gar::config::keys::Action;
use gar::config::Config;
use gar::ipc::i3_server::{
    build_output_event_json, build_subscribe_success_json, is_stale, run_command_reply, unsupported_reply, version_info,
};
use gar::ipc::protocol::{CommandArgs, ResponseData};
use gar::wm::commands::IpcCommand;
use gar::wm::info::I3Answer;
use gar::wm::manager::{Effect, WindowManager};

fn single() -> WindowManager {
    WindowManager::new(Config::default(), 1, 1920, 1080, Vec::new())
}

fn no_args() -> CommandArgs {
    CommandArgs { direction: None, amount: None, number: None, target: None }
}

#[test]
fn i3_fixed_replies() {
    assert_eq!(build_output_event_json(), "{\"change\":\"unspecified\"}");
    assert_eq!(build_subscribe_success_json(), "{\"success\":true}");
    assert_eq!(run_command_reply(true), "[{\"success\":true}]");
    assert_eq!(run_command_reply(false), "[{\"success\":false,\"error\":\"command failed\"}]");
    assert_eq!(unsupported_reply(), "{\"success\":false,\"error\":\"unsupported\"}");
    let v = version_info();
    assert_eq!((v.major, v.minor, v.patch), (0, 1, 0));
    assert_eq!(v.human_readable, "gar 0.1.0 (i3-compat)");
}

#[test]
fn idle_clients_go_stale() {
    assert!(is_stale(false, false, 31, 30));
    assert!(!is_stale(false, false, 30, 30));
    assert!(!is_stale(true, false, 100, 30));
    assert!(!is_stale(false, true, 100, 30));
}

#[test]
fn i3_workspace_commands() {
    let mut wm = single();
    let (ok, e) = wm.execute_i3_command("workspace 3");
    assert!(ok);
    assert_eq!(wm.focused_workspace, 2);
    assert!(!e.is_empty());
    let (ok2, _) = wm.execute_i3_command("  workspace 1  ");
    assert!(ok2);
    assert_eq!(wm.focused_workspace, 0);
    let (ok3, e3) = wm.execute_i3_command("workspace number 4");
    assert!(ok3);
    assert_eq!(wm.focused_workspace, 3);
    assert!(!e3.is_empty());
    assert!(!wm.execute_i3_command("workspace number eleven").0);
    assert_eq!(wm.focused_workspace, 3);
    assert!(!wm.execute_i3_command("focus left").0);
    assert!(!wm.execute_i3_command("workspace 11").0);
}

#[test]
fn i3_workspace_reports() {
    let mut wm = single();
    wm.manage_window(100);
    let ws = wm.build_i3_workspaces();
    assert_eq!(ws.len(), 1);
    assert_eq!(ws[0].num, 1);
    assert!(ws[0].focused && ws[0].visible);
    let outs = wm.build_i3_outputs();
    assert_eq!(outs.len(), 1);
    assert_eq!(outs[0].name, "default");
    let ev = wm.build_workspace_event("focus".to_string(), 0, Some(1)).unwrap();
    assert_eq!(ev.change, "focus");
}

#[test]
fn own_protocol_commands() {
    let mut wm = single();
    wm.manage_window(100);
    wm.manage_window(101);
    assert_eq!(IpcCommand::parse("get_tree"), Some(IpcCommand::GetTree));
    assert_eq!(IpcCommand::parse("nope"), None);
    let (r, e) = wm.dispatch_ipc_command("focus", CommandArgs { direction: Some("left".to_string()), ..no_args() });
    assert!(r.success);
    assert!(matches!(e.as_slice(), [Effect::Focus(100, true)]));
    let (bad, _) = wm.dispatch_ipc_command("focus", CommandArgs { direction: Some("up-ish".to_string()), ..no_args() });
    assert!(!bad.success);
    let (unknown, ue) = wm.dispatch_ipc_command("dance", no_args());
    assert!(!unknown.success);
    assert!(ue.is_empty());
    let (focused, _) = wm.dispatch_ipc_command("get_focused", no_args());
    match focused.data {
        Some(ResponseData::Focused(Some(f))) => {
            assert_eq!(f.id, 100);
            assert_eq!(f.workspace, 1);
            assert!(!f.floating);
        },
        _ => panic!("focused"),
    }
    let (tree, _) = wm.dispatch_ipc_command("get_tree", no_args());
    match tree.data {
        Some(ResponseData::Tree(t)) => {
            assert_eq!(t.focused_workspace, 1);
            assert_eq!(t.workspaces[0].tiled, vec![100, 101]);
        },
        _ => panic!("tree"),
    }
    let (ws, e2) = wm.dispatch_ipc_command("workspace", CommandArgs { number: Some(2), ..no_args() });
    assert!(ws.success);
    assert_eq!(wm.focused_workspace, 1);
    assert!(!e2.is_empty());
    let (exit, _) = wm.dispatch_ipc_command("exit", no_args());
    assert!(exit.success);
    assert!(!wm.running);
}

#[test]
fn key_actions() {
    let mut wm = single();
    wm.manage_window(100);
    let e = wm.execute_action(Action::Exec("xterm".to_string()));
    assert!(matches!(e.as_slice(), [Effect::Spawn(s)] if s == "xterm"));
    let c = wm.execute_action(Action::CloseWindow);
    assert!(matches!(c.as_slice(), [Effect::Close(100)]));
    wm.execute_action(Action::Workspace(4));
    assert_eq!(wm.focused_workspace, 3);
    wm.execute_action(Action::WorkspaceNext);
    assert_eq!(wm.focused_workspace, 0);
    wm.execute_action(Action::Exit);
    assert!(!wm.running);
}

#[test]
fn i3_requests_answered() {
    let mut wm = single();
    wm.manage_window(100);
    match wm.answer_i3(0, b"workspace 3") {
        (I3Answer::Text(t), effects) => {
            assert_eq!(t, "[{\"success\":true}]");
            assert!(!effects.is_empty());
        }
        _ => panic!("a command is answered with text"),
    }
    assert_eq!(wm.focused_workspace, 2);
    match wm.answer_i3(0, &[0xff, 0xfe]) {
        (I3Answer::Text(t), effects) => {
            assert_eq!(t, "[{\"success\":false,\"error\":\"command failed\"}]");
            assert!(effects.is_empty());
        }
        _ => panic!("a command is answered with text"),
    }
    assert_eq!(wm.focused_workspace, 2);
    match wm.answer_i3(1, b"") {
        (I3Answer::Workspaces(ws), _) => {
            assert_eq!(ws.len(), 2);
            assert_eq!(ws[0].num, 1);
            assert_eq!(ws[1].num, 3);
            assert!(ws[1].focused);
        }
        _ => panic!("workspaces expected"),
    }
    assert!(matches!(wm.answer_i3(2, b"[\"workspace\"]").0, I3Answer::Subscribe));
    match wm.answer_i3(3, b"") {
        (I3Answer::Outputs(o), _) => assert_eq!(o.len(), 1),
        _ => panic!("outputs expected"),
    }
    match wm.answer_i3(7, b"") {
        (I3Answer::Version(v), _) => assert_eq!(v.human_readable, "gar 0.1.0 (i3-compat)"),
        _ => panic!("version expected"),
    }
    match wm.answer_i3(4, b"") {
        (I3Answer::Text(t), _) => assert_eq!(t, "{\"success\":false,\"error\":\"unsupported\"}"),
        _ => panic!("unsupported expected"),
    }
    assert_eq!(wm.focused_workspace, 2);
}
