use gar::config::keys::{Action, Keybind};
use gar::config::rules::RuleActions;
use gar::config::Config;
use gar::wm::drag::{DragState, PointerState};
use gar::wm::handlers::{find_keybind, helper_action, ClientRequest, HelperAction, Placement};
use gar::wm::manager::{Effect, WindowManager};
use gar::wm::monitor::Monitor;
use gar::wm::tree::Rect;
use gar::x11::properties::KeyboardMapping;

fn single() -> WindowManager {
    WindowManager::new(Config::default(), 1, 1920, 1080, Vec::new())
}

fn dual() -> WindowManager {
    let monitors = vec![
        Monitor::new("left".to_string(), 10, Rect::new(0, 0, 1920, 1080)),
        Monitor::new("right".to_string(), 11, Rect::new(1920, 0, 1280, 1024)),
    ];
    WindowManager::new(Config::default(), 1, 3200, 1080, monitors)
}

fn no_rule() -> RuleActions {
    RuleActions::none()
}

#[test]
fn dock_windows_are_only_mapped() {
    let mut wm = single();
    let e = wm.handle_map_request(300, true, no_rule(), false, 10, 10);
    assert!(matches!(e.as_slice(), [Effect::MapWindow(300)]));
    assert!(wm.windows.is_empty());
}

#[test]
fn new_window_is_managed_shown_and_focused() {
    let mut wm = single();
    let e = wm.handle_map_request(100, false, no_rule(), false, 10, 10);
    assert!(matches!(
        e.as_slice(),
        [
            Effect::SelectInput(100),
            Effect::GrabButton(100),
            Effect::SetWindowDesktop(100, 0),
            Effect::MapWindow(100),
            Effect::ApplyLayout,
            Effect::Focus(100, true),
            Effect::Raise(100),
        ]
    ));
    assert_eq!(wm.focused_window, Some(100));
    assert!(wm.workspaces[0].tree.contains(100));
    let again = wm.handle_map_request(100, false, no_rule(), false, 10, 10);
    assert!(matches!(again.as_slice(), [Effect::MapWindow(100)]));
}

#[test]
fn rules_pick_the_workspace_and_floating() {
    let mut wm = single();
    let rule = RuleActions { floating: Some(true), workspace: Some(3) };
    assert!(matches!(wm.placement(100, false, rule, false, 0, 0), Placement::Manage { workspace: 2, floating: true }));
    let e = wm.handle_map_request(100, false, rule, false, 0, 0);
    assert!(matches!(e.as_slice(), [Effect::SelectInput(100), Effect::GrabButton(100), Effect::SetWindowDesktop(100, 2), Effect::ApplyLayout]));
    assert!(wm.workspaces[2].floating.contains(&100));
    assert_eq!(wm.focused_window, None);
    let far = RuleActions { floating: None, workspace: Some(99) };
    assert!(matches!(wm.placement(101, false, far, true, 0, 0), Placement::Manage { workspace: 9, floating: true }));
    let zero = RuleActions { floating: None, workspace: Some(0) };
    assert!(matches!(wm.placement(101, false, zero, false, 0, 0), Placement::Manage { workspace: 0, floating: false }));
}

#[test]
fn new_window_goes_to_the_monitor_under_the_pointer() {
    let wm = dual();
    assert_eq!(wm.workspace_for_new_window(2000, 500), 5);
    assert_eq!(wm.workspace_for_new_window(100, 500), 0);
    assert_eq!(wm.workspace_for_new_window(-5, 500), 0);
}

#[test]
fn own_unmaps_are_counted_down() {
    let mut wm = single();
    wm.handle_map_request(100, false, no_rule(), false, 0, 0);
    wm.switch_workspace(1);
    assert_eq!(wm.windows[&100].ignore_unmap_count, 1);
    assert!(wm.handle_unmap_notify(100, 1).is_empty());
    assert_eq!(wm.windows[&100].ignore_unmap_count, 0);
    assert!(wm.handle_unmap_notify(100, 1).is_empty());
    assert!(wm.windows.contains_key(&100));
    assert!(wm.handle_unmap_notify(100, 100).is_empty());
}

#[test]
fn a_shown_window_unmapping_itself_is_forgotten() {
    let mut wm = single();
    wm.handle_map_request(100, false, no_rule(), false, 0, 0);
    wm.handle_map_request(101, false, no_rule(), false, 0, 0);
    let e = wm.handle_unmap_notify(101, 1);
    assert!(matches!(e.as_slice(), [Effect::ClearRoot, Effect::ApplyLayout, Effect::Focus(100, true)]));
    assert!(!wm.windows.contains_key(&101));
    let last = wm.handle_unmap_notify(100, 1);
    assert!(matches!(last.as_slice(), [Effect::ClearRoot, Effect::ApplyLayout, Effect::WarpPointer(960, 540)]));
}

#[test]
fn destroying_the_dragged_window_ends_the_drag() {
    let mut wm = single();
    wm.handle_map_request(100, false, no_rule(), false, 0, 0);
    let mut p = PointerState::new();
    p.drag = Some(DragState::Move { window: 100, start_x: 0, start_y: 0, start_geometry: Rect::new(0, 0, 10, 10) });
    let e = wm.handle_destroy_notify(&mut p, 100);
    assert!(matches!(e.as_slice(), [Effect::UngrabPointer, Effect::ClearRoot, Effect::ApplyLayout, Effect::WarpPointer(960, 540)]));
    assert!(p.drag.is_none());
    assert!(wm.handle_destroy_notify(&mut p, 4242).is_empty());
}

#[test]
fn pointer_entering_focuses() {
    let mut wm = single();
    wm.handle_map_request(100, false, no_rule(), false, 0, 0);
    wm.handle_map_request(101, false, no_rule(), false, 0, 0);
    assert!(wm.handle_enter_notify(true, false, true, 100).is_empty());
    assert!(wm.handle_enter_notify(false, true, true, 100).is_empty());
    assert!(wm.handle_enter_notify(false, false, false, 100).is_empty());
    assert!(wm.handle_enter_notify(false, false, true, 101).is_empty());
    let e = wm.handle_enter_notify(false, false, true, 100);
    assert!(matches!(e.as_slice(), [Effect::Focus(100, false)]));
    assert_eq!(wm.focused_window, Some(100));
}

#[test]
fn urgency_changes_redraw_borders() {
    let mut wm = single();
    wm.handle_map_request(100, false, no_rule(), false, 0, 0);
    let e = wm.handle_property_notify(100, Some(true));
    assert!(matches!(e.as_slice(), [Effect::UpdateBorders]));
    assert!(wm.windows[&100].urgent);
    assert!(wm.handle_property_notify(100, Some(true)).is_empty());
    assert!(wm.handle_property_notify(100, None).is_empty());
    assert!(wm.handle_property_notify(7, Some(true)).is_empty());
}

#[test]
fn client_requests() {
    let mut wm = single();
    wm.handle_map_request(100, false, no_rule(), false, 0, 0);
    wm.handle_map_request(101, false, no_rule(), false, 0, 0);
    let a = wm.handle_client_message(ClientRequest::Activate(100));
    assert!(matches!(a.as_slice(), [Effect::Focus(100, false)]));
    let c = wm.handle_client_message(ClientRequest::Close(101));
    assert!(matches!(c.as_slice(), [Effect::Close(101)]));
    assert!(wm.handle_client_message(ClientRequest::Close(999)).is_empty());
    let f = wm.handle_client_message(ClientRequest::Fullscreen(100, 2));
    assert!(matches!(f.as_slice(), [Effect::ToggleFullscreen(100)]));
    let g = wm.handle_client_message(ClientRequest::Fullscreen(100, 1));
    assert!(matches!(g.as_slice(), [Effect::SetFullscreen(100, true)]));
    assert!(wm.handle_client_message(ClientRequest::Fullscreen(100, 7)).is_empty());
    let r = wm.handle_client_message(ClientRequest::Above(100, 1));
    assert!(matches!(r.as_slice(), [Effect::Raise(100)]));
    assert!(wm.handle_client_message(ClientRequest::Above(100, 0)).is_empty());
    let d = wm.handle_client_message(ClientRequest::CurrentDesktop(3));
    assert_eq!(wm.focused_workspace, 3);
    assert!(matches!(d[0], Effect::UnmapWindow(_)));
    assert!(wm.handle_client_message(ClientRequest::CurrentDesktop(10)).is_empty());
    let back = wm.handle_client_message(ClientRequest::Activate(101));
    assert_eq!(wm.focused_workspace, 0);
    assert!(matches!(back.last(), Some(Effect::Focus(101, false))));
    assert!(wm.handle_client_message(ClientRequest::Other).is_empty());
}

#[test]
fn monitors_refreshed() {
    let mut wm = dual();
    wm.focus_monitor("right");
    wm.switch_workspace(7);
    assert_eq!(wm.focused_monitor, 1);
    let e = wm.refresh_monitors(vec![Monitor::new("only".to_string(), 3, Rect::new(0, 0, 2560, 1440))]);
    assert!(matches!(e.as_slice(), [Effect::ApplyLayout]));
    assert_eq!(wm.monitors.len(), 1);
    assert_eq!(wm.focused_monitor, 0);
    assert_eq!(wm.focused_workspace, 7);
    wm.refresh_monitors(Vec::new());
    assert_eq!(wm.monitors[0].name, "default");
    assert_eq!(wm.monitors[0].geometry.width, 3200);
    wm.set_screen_size(1280, 720);
    assert_eq!(wm.screen_width, 1280);
}

#[test]
fn adopting_windows_at_start() {
    let mut wm = single();
    let (taken, e) = wm.adopt_window(100, false, true, RuleActions::none(), false);
    assert!(taken);
    assert!(matches!(e.as_slice(), [Effect::SelectInput(100), Effect::GrabButton(100), Effect::SetWindowDesktop(100, 0)]));
    assert!(!wm.adopt_window(101, true, true, RuleActions::none(), false).0);
    assert!(!wm.adopt_window(102, false, false, RuleActions::none(), false).0);
    assert!(!wm.adopt_window(100, false, true, RuleActions::none(), false).0);
    wm.adopt_window(103, false, true, RuleActions::none(), true);
    assert!(wm.workspaces[0].floating.contains(&103));
    let f = wm.finish_adoption(2);
    assert!(matches!(f.as_slice(), [Effect::ApplyLayout, Effect::Focus(103, true)]));
    assert!(wm.finish_adoption(0).is_empty());
}

#[test]
fn helper_programs_on_reload() {
    assert_eq!(helper_action(true, true, true, true), HelperAction::Reload);
    assert_eq!(helper_action(true, true, true, false), HelperAction::Restart);
    assert_eq!(helper_action(true, false, false, false), HelperAction::Spawn);
    assert_eq!(helper_action(false, true, true, true), HelperAction::Stop);
    assert_eq!(helper_action(false, false, false, false), HelperAction::Nothing);
}

#[test]
fn key_bindings_match_keycode_and_modifiers() {
    let mapping = KeyboardMapping {
        min_keycode: 8,
        max_keycode: 11,
        keysyms_per_keycode: 2,
        keysyms: vec![0x61, 0x41, 0x62, 0x42, 0x71, 0x51, 0xff0d, 0],
    };
    let binds = vec![
        Keybind { modifiers: 0x40, keysym: 0x71, action: Action::CloseWindow },
        Keybind { modifiers: 0x41, keysym: 0xff0d, action: Action::Exit },
    ];
    assert_eq!(find_keybind(&binds, &mapping, 10, 0x40), Some(0));
    // Num Lock (Mod2) and Caps Lock are ignored.
    assert_eq!(find_keybind(&binds, &mapping, 10, 0x40 | 0x10 | 0x2), Some(0));
    assert_eq!(find_keybind(&binds, &mapping, 11, 0x41), Some(1));
    assert_eq!(find_keybind(&binds, &mapping, 10, 0x41), None);
    assert_eq!(find_keybind(&binds, &mapping, 9, 0x40), None);
}

#[test]
fn preconditions_can_be_tested() {
    let mut wm = single();
    wm.handle_map_request(100, false, no_rule(), false, 0, 0);
    assert!(wm.unmap_room_for(5));
    assert_eq!(wm.shown_count(), 1);
    assert!(wm.float_geometry_fits());
    assert!(wm.work_area_fits());
}
