use gar::config::Config;
use gar::wm::layout::Configure;
use gar::wm::manager::{assign_workspaces, Effect, WindowManager};
use gar::wm::monitor::Monitor;
use gar::wm::tree::{Direction, Rect};
use gar::wm::window::Window;

fn single() -> WindowManager {
    WindowManager::new(Config::default(), 1, 1920, 1080, Vec::new())
}

fn dual() -> WindowManager {
    let monitors = vec![
        Monitor::new("left".to_string(), 10, Rect::new(0, 0, 1920, 1080)),
        Monitor::new("right".to_string(), 11, Rect::new(1920, 0, 1280, 1024)),
    ];
    WindowManager::new(Config::default(), 1, 3200, 1080, monitors)
}

fn plan(wm: &WindowManager) -> Vec<(u32, i16, i16, u16, u16)> {
    wm.layout_plan().iter().map(|c: &Configure| (c.window, c.x, c.y, c.width, c.height)).collect()
}

#[test]
fn new_without_monitors_uses_the_whole_screen() {
    let wm = single();
    assert_eq!(wm.workspaces.len(), 10);
    assert_eq!(wm.monitors.len(), 1);
    assert_eq!(wm.monitors[0].name, "default");
    assert_eq!(wm.monitors[0].workspaces, (0..10).collect::<Vec<usize>>());
    assert_eq!(wm.workspaces[0].name, "1");
    assert_eq!(wm.workspaces[9].name, "10");
    assert_eq!(wm.focused_workspace, 0);
    assert!(wm.running);
}

#[test]
fn two_monitors_share_the_workspaces() {
    let wm = dual();
    assert_eq!(wm.monitors[0].workspaces, vec![0, 1, 2, 3, 4]);
    assert_eq!(wm.monitors[1].workspaces, vec![5, 6, 7, 8, 9]);
    assert_eq!(wm.monitors[1].active_workspace, 5);
    assert_eq!(wm.visible_workspaces(), vec![0, 5]);
    assert!(wm.is_workspace_visible(5));
    assert!(!wm.is_workspace_visible(6));
    assert_eq!(wm.monitor_idx_for_workspace(7), Some(1));
}

#[test]
fn three_monitors_partition_ten_workspaces() {
    let mut ms = vec![
        Monitor::new("a".to_string(), 1, Rect::new(0, 0, 100, 100)),
        Monitor::new("b".to_string(), 2, Rect::new(100, 0, 100, 100)),
        Monitor::new("c".to_string(), 3, Rect::new(200, 0, 100, 100)),
    ];
    assign_workspaces(&mut ms, 10);
    assert_eq!(ms[0].workspaces, vec![0, 1, 2]);
    assert_eq!(ms[1].workspaces, vec![3, 4, 5]);
    assert_eq!(ms[2].workspaces, vec![6, 7, 8, 9]);
    for k in 0..10usize {
        assert_eq!(ms.iter().filter(|m| m.workspaces.contains(&k)).count(), 1);
    }
}

#[test]
fn managing_tiles_and_focuses() {
    let mut wm = single();
    let e = wm.manage_window(100);
    assert!(matches!(e.as_slice(), [Effect::SetWindowDesktop(100, 0)]));
    wm.manage_window(101);
    assert_eq!(wm.focused_window, Some(101));
    assert_eq!(plan(&wm), vec![(100, 0, 0, 956, 1076), (101, 960, 0, 956, 1076)]);
    assert!(wm.manage_window(101).is_empty());
    assert!(wm.manage_window(1).is_empty());
}

#[test]
fn unmanage_moves_the_focus_to_the_first_tile() {
    let mut wm = single();
    wm.manage_window(100);
    wm.manage_window(101);
    assert!(wm.unmanage_window(101));
    assert_eq!(wm.focused_window, Some(100));
    assert!(!wm.windows.contains_key(&101));
    assert!(!wm.unmanage_window(101));
    assert_eq!(plan(&wm), vec![(100, 0, 0, 1916, 1076)]);
}

#[test]
fn floating_windows_are_centered_and_on_top() {
    let mut wm = single();
    wm.manage_window(100);
    wm.manage_window_floating(200);
    assert_eq!(wm.workspaces[0].floating, vec![200]);
    let g = wm.get_floating_geometry(200);
    assert_eq!((g.x, g.y, g.width, g.height), (640, 300, 640, 480));
    let p = wm.layout_plan();
    assert_eq!(p.len(), 2);
    assert_eq!((p[1].window, p[1].x, p[1].width, p[1].raise), (200, 640, 636, true));
    assert!(!p[0].raise);
}

#[test]
fn switching_hides_and_shows() {
    let mut wm = single();
    wm.manage_window(100);
    let e = wm.switch_workspace(1);
    assert!(matches!(
        e.as_slice(),
        [
            Effect::UnmapWindow(100),
            Effect::SetCurrentDesktop(1),
            Effect::ApplyLayout,
            Effect::ClearActiveWindow,
            Effect::WarpPointer(960, 540),
            Effect::WorkspaceEvent(1, Some(0)),
        ]
    ));
    assert_eq!(wm.focused_workspace, 1);
    assert_eq!(wm.windows[&100].ignore_unmap_count, 1);
    let back = wm.switch_workspace(0);
    assert!(matches!(back.as_slice(), [Effect::SetCurrentDesktop(0), Effect::MapWindow(100), Effect::ApplyLayout, Effect::Focus(100, true), Effect::WorkspaceEvent(0, Some(1))]));
    assert!(wm.switch_workspace(0).is_empty());
    assert!(wm.switch_workspace(42).is_empty());
}

#[test]
fn switching_to_a_shown_workspace_moves_the_focus_there() {
    let mut wm = dual();
    let e = wm.switch_workspace(5);
    assert_eq!(wm.focused_monitor, 1);
    assert_eq!(wm.focused_workspace, 5);
    assert!(matches!(e.as_slice(), [Effect::SetCurrentDesktop(5), Effect::WarpPointer(2560, 512), Effect::ClearActiveWindow, Effect::WorkspaceEvent(5, Some(0))]));
}

#[test]
fn moving_a_window_to_a_hidden_workspace() {
    let mut wm = single();
    wm.manage_window(100);
    wm.manage_window(101);
    let e = wm.move_to_workspace(3);
    assert!(matches!(e[0], Effect::SetWindowDesktop(101, 3)));
    assert!(matches!(e[1], Effect::UnmapWindow(101)));
    assert!(wm.workspaces[3].tree.contains(101));
    assert!(!wm.workspaces[0].tree.contains(101));
    assert_eq!(wm.windows[&101].workspace, 3);
    assert_eq!(wm.focused_window, Some(100));
}

#[test]
fn focus_and_swap_in_a_direction() {
    let mut wm = single();
    wm.manage_window(100);
    wm.manage_window(101);
    let e = wm.focus_direction(Direction::Left);
    assert!(matches!(e.as_slice(), [Effect::Focus(100, true)]));
    assert_eq!(wm.focused_window, Some(100));
    let s = wm.swap_direction(Direction::Right);
    assert!(matches!(s.as_slice(), [Effect::ApplyLayout, Effect::Focus(100, true)]));
    assert_eq!(wm.workspaces[0].tree.windows(), vec![101, 100]);
}

#[test]
fn resize_and_equalize_change_the_layout() {
    let mut wm = single();
    wm.manage_window(100);
    wm.manage_window(101);
    wm.focus_direction(Direction::Left);
    let e = wm.resize_direction(Direction::Right, 1000);
    assert!(matches!(e.as_slice(), [Effect::ApplyLayout]));
    assert_eq!(plan(&wm)[0], (100, 0, 0, 1148, 1076));
    wm.equalize();
    assert_eq!(plan(&wm)[0], (100, 0, 0, 956, 1076));
}

#[test]
fn toggle_floating_round_trip() {
    let mut wm = single();
    wm.manage_window(100);
    wm.manage_window(101);
    let e = wm.toggle_floating(101);
    assert!(matches!(e.as_slice(), [Effect::SelectInput(101), Effect::ApplyLayout]));
    assert!(wm.is_floating(101));
    let g = wm.get_floating_geometry(101);
    // It floats where its tile was: the right half of the screen.
    assert_eq!((g.x, g.y, g.width, g.height), (960, 0, 960, 1080));
    wm.toggle_floating(101);
    assert!(!wm.is_floating(101));
    assert!(wm.workspaces[0].floating.is_empty());
    assert_eq!(wm.workspaces[0].tree.windows(), vec![100, 101]);
    assert!(wm.toggle_floating(555).is_empty());
}

#[test]
fn cycle_floating_brings_the_next_to_the_top() {
    let mut wm = single();
    wm.manage_window_floating(200);
    wm.manage_window_floating(201);
    let e = wm.cycle_floating();
    assert!(matches!(e.as_slice(), [Effect::Focus(200, true), Effect::Raise(200)]));
    assert_eq!(wm.workspaces[0].floating, vec![201, 200]);
}

#[test]
fn focus_monitor_by_name_and_direction() {
    let mut wm = dual();
    assert_eq!(wm.resolve_monitor("right"), Some(1));
    assert_eq!(wm.resolve_monitor("next"), Some(1));
    assert_eq!(wm.resolve_monitor("nowhere"), None);
    wm.focus_monitor("right");
    assert_eq!(wm.focused_monitor, 1);
    assert_eq!(wm.focused_workspace, 5);
    wm.focus_adjacent_monitor(Direction::Left);
    assert_eq!(wm.focused_monitor, 0);
}

#[test]
fn move_to_monitor_takes_the_window_along() {
    let mut wm = dual();
    wm.manage_window(100);
    wm.move_to_monitor("right");
    assert_eq!(wm.windows[&100].workspace, 5);
    assert!(wm.workspaces[5].tree.contains(100));
}

#[test]
fn borders_follow_the_focus() {
    let mut wm = single();
    wm.manage_window(100);
    wm.manage_window(101);
    let b = wm.border_plan();
    assert_eq!(b, vec![(100, 0x2d2d2d), (101, 0x5294e2)]);
}

#[test]
fn monitor_and_window_getters() {
    let mut wm = dual();
    assert_eq!(wm.current_monitor().name, "left");
    assert_eq!(wm.monitor_for_workspace(6).map(|m| m.name.clone()), Some("right".to_string()));
    assert!(wm.monitor_for_workspace(12).is_none());
    let r = wm.workspace_rect(6);
    assert_eq!((r.x, r.y, r.width, r.height), (1920, 0, 1280, 1024));
    let r = wm.workspace_rect(12);
    assert_eq!((r.x, r.y, r.width, r.height), (0, 0, 3200, 1080));
    wm.focus_monitor("right");
    assert_eq!(wm.current_monitor().name, "right");
    let mut w = Window::new(42, 0);
    assert_eq!(w.outer_window(), 42);
    w.frame = Some(77);
    assert_eq!(w.outer_window(), 77);
}
