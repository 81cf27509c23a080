use gar::config::Config;
use gar::wm::drag::{Cursor, DragState, PointerState, Press};
use gar::wm::manager::{Effect, WindowManager};
use gar::wm::tree::{Direction, Rect};
use gar::x11::events::{calculate_resize, determine_resize_edge, determine_resize_edge_quadrant, parse_direction, ResizeEdge};
use gar::x11::frames::FrameManager;

const MOD4: u16 = 0x40;

fn two_tiles() -> WindowManager {
    let mut wm = WindowManager::new(Config::default(), 1, 1920, 1080, Vec::new());
    wm.manage_window(100);
    wm.manage_window(101);
    wm
}

#[test]
fn edges_of_a_floating_window() {
    let g = Rect::new(100, 100, 400, 300);
    assert_eq!(determine_resize_edge(&g, 105, 105), ResizeEdge::TopLeft);
    assert_eq!(determine_resize_edge(&g, 495, 105), ResizeEdge::TopRight);
    assert_eq!(determine_resize_edge(&g, 300, 399), ResizeEdge::Bottom);
    assert_eq!(determine_resize_edge(&g, 100, 250), ResizeEdge::Left);
    assert_eq!(determine_resize_edge(&g, 300, 250), ResizeEdge::NoEdge);
    assert_eq!(determine_resize_edge(&g, 501, 250), ResizeEdge::NoEdge);
}

#[test]
fn quadrant_edges() {
    let g = Rect::new(0, 0, 200, 100);
    assert_eq!(determine_resize_edge_quadrant(&g, 10, 10), ResizeEdge::TopLeft);
    assert_eq!(determine_resize_edge_quadrant(&g, 150, 10), ResizeEdge::TopRight);
    assert_eq!(determine_resize_edge_quadrant(&g, 10, 90), ResizeEdge::BottomLeft);
    assert_eq!(determine_resize_edge_quadrant(&g, 100, 50), ResizeEdge::BottomRight);
}

#[test]
fn resize_from_each_side() {
    let g = Rect::new(100, 100, 400, 300);
    assert_eq!(calculate_resize(&g, ResizeEdge::Right, 50, 0), (100, 100, 450, 300));
    assert_eq!(calculate_resize(&g, ResizeEdge::TopLeft, 20, 30), (120, 130, 380, 270));
    assert_eq!(calculate_resize(&g, ResizeEdge::Bottom, 0, -290), (100, 100, 400, 50));
    assert_eq!(calculate_resize(&g, ResizeEdge::Left, 0, 0), (100, 100, 400, 300));
}

#[test]
fn directions_ignore_case() {
    assert_eq!(parse_direction("LEFT"), Some(Direction::Left));
    assert_eq!(parse_direction("down"), Some(Direction::Down));
    assert_eq!(parse_direction("sideways"), None);
}

#[test]
fn frames_track_and_untrack() {
    let mut f = FrameManager::new();
    f.track(100, 900);
    assert!(f.is_frame(900));
    assert_eq!(f.client_for_frame(900), Some(100));
    assert_eq!(f.frame_for_client(100), Some(900));
    assert_eq!(f.client_or_self(900), 100);
    assert_eq!(f.client_or_self(55), 55);
    assert_eq!(f.all_frames(), vec![900]);
    assert_eq!(f.untrack(100), Some(900));
    assert_eq!(f.untrack(100), None);
    assert!(!f.is_frame(900));
    assert!(f.all_frames().is_empty());
}

#[test]
fn border_between_tiles_is_found() {
    let wm = two_tiles();
    let g = vec![(100, Rect::new(0, 0, 960, 1080)), (101, Rect::new(960, 0, 960, 1080))];
    assert_eq!(wm.find_tiled_resize_edge(100, &g[0].1, 955, 500, &g), Some((100, 101, Direction::Right)));
    assert_eq!(wm.find_tiled_resize_edge(101, &g[1].1, 962, 500, &g), Some((100, 101, Direction::Right)));
    assert_eq!(wm.find_tiled_resize_edge(100, &g[0].1, 400, 500, &g), None);
    let gapped = vec![(1, Rect::new(0, 0, 950, 1080)), (2, Rect::new(960, 0, 950, 1080))];
    assert_eq!(wm.find_edge_from_gap(955, 500, &gapped), Some((1, 2, Direction::Right)));
    assert_eq!(wm.find_edge_from_gap(500, 500, &gapped), None);
    let stacked = vec![(1, Rect::new(0, 0, 800, 500)), (2, Rect::new(0, 510, 800, 500))];
    assert_eq!(wm.find_edge_from_gap(300, 505, &stacked), Some((1, 2, Direction::Down)));
}

#[test]
fn press_while_dragging_is_ignored() {
    let mut wm = two_tiles();
    let frames = FrameManager::new();
    let mut p = PointerState::new();
    p.drag = Some(DragState::Move { window: 100, start_x: 0, start_y: 0, start_geometry: Rect::new(0, 0, 10, 10) });
    assert!(matches!(wm.press_decision(&frames, true, 100, 0, 1, 0, 10, 10), Press::Busy));
    let e = wm.handle_button_press(&mut p, &frames, 100, 0, 1, 0, 10, 10);
    assert!(e.is_empty());
}

#[test]
fn modifier_drag_moves_a_floating_window_and_back() {
    let mut wm = two_tiles();
    wm.manage_window_floating(200);
    let frames = FrameManager::new();
    let mut p = PointerState::new();
    let start = wm.get_floating_geometry(200);
    let e = wm.handle_button_press(&mut p, &frames, 200, 0, 1, MOD4, 700, 400);
    assert!(matches!(e.as_slice(), [Effect::ClearWindowCursor(200), Effect::GrabPointer(Cursor::Move)]));
    let m = wm.handle_motion_notify(&mut p, &frames, 1, 750, 420);
    assert!(matches!(m.as_slice(), [Effect::ConfigureWindow(200, 690, 320, 640, 480, 2)]));
    let g = wm.get_floating_geometry(200);
    assert_eq!((g.x, g.y), (start.x + 50, start.y + 20));
    wm.handle_motion_notify(&mut p, &frames, 1, 700, 400);
    let back = wm.get_floating_geometry(200);
    assert_eq!((back.x, back.y, back.width, back.height), (start.x, start.y, start.width, start.height));
    let r = wm.handle_button_release(&mut p, 700, 400);
    assert!(matches!(r[0], Effect::UngrabPointer));
    assert!(p.drag.is_none());
}

#[test]
fn modifier_right_drag_resizes_from_the_quadrant() {
    let mut wm = two_tiles();
    wm.manage_window_floating(200);
    let frames = FrameManager::new();
    let mut p = PointerState::new();
    let e = wm.handle_button_press(&mut p, &frames, 200, 0, 3, MOD4, 1200, 700);
    assert!(matches!(e.as_slice(), [Effect::ClearWindowCursor(200), Effect::GrabPointer(Cursor::BottomRight)]));
    wm.handle_motion_notify(&mut p, &frames, 1, 1300, 750);
    let g = wm.get_floating_geometry(200);
    assert_eq!((g.x, g.y, g.width, g.height), (640, 300, 740, 530));
}

#[test]
fn plain_press_on_a_floating_window_is_let_through() {
    // With no tile under the pointer and no border gap there, the press
    // goes on to the client, on an edge as well as inside.
    let mut wm = two_tiles();
    wm.manage_window_floating(200);
    let frames = FrameManager::new();
    assert!(matches!(wm.press_decision(&frames, false, 200, 0, 1, 0, 645, 500), Press::PassOn));
    assert!(matches!(wm.press_decision(&frames, false, 200, 0, 1, 0, 900, 500), Press::PassOn));
}

#[test]
fn modifier_drag_swaps_tiles() {
    let mut wm = two_tiles();
    let frames = FrameManager::new();
    let mut p = PointerState::new();
    let e = wm.handle_button_press(&mut p, &frames, 100, 0, 1, MOD4, 100, 100);
    assert!(matches!(e.as_slice(), [Effect::Raise(100), Effect::GrabPointer(Cursor::Move)]));
    let m = wm.handle_motion_notify(&mut p, &frames, 1, 1500, 100);
    assert!(matches!(m[0], Effect::MoveWindow(100, 1400, 0)));
    assert!(matches!(m[1], Effect::ApplyLayout));
    assert!(matches!(m[3], Effect::SetBorder(101, 2, 0x00ff00)));
    assert_eq!(wm.workspaces[0].tree.windows(), vec![101, 100]);
    let r = wm.handle_button_release(&mut p, 1500, 100);
    assert!(matches!(r.as_slice(), [Effect::UngrabPointer, Effect::SetBorder(101, 2, 0x5294e2), Effect::ApplyLayout, Effect::Focus(100, true)]));
    assert_eq!(wm.focused_window, Some(100));
}

#[test]
fn dragging_the_border_between_tiles() {
    let mut wm = two_tiles();
    let frames = FrameManager::new();
    let mut p = PointerState::new();
    let e = wm.handle_button_press(&mut p, &frames, 100, 0, 1, 0, 958, 500);
    assert!(matches!(e.as_slice(), [Effect::GrabPointer(Cursor::HorizontalDouble)]));
    assert!(matches!(p.drag, Some(DragState::TiledResize { direction: Direction::Right, start_pos: 958, start_ratio: 5000, window: 100, container_size: 1920, .. })));
    let m = wm.handle_motion_notify(&mut p, &frames, 1, 1150, 500);
    assert!(matches!(m.as_slice(), [Effect::ApplyLayout]));
    assert_eq!(wm.workspaces[0].tree.get_split_ratio(100, Direction::Right), Some(6000));
    wm.handle_motion_notify(&mut p, &frames, 1, 958, 500);
    assert_eq!(wm.workspaces[0].tree.get_split_ratio(100, Direction::Right), Some(5000));
    let r = wm.handle_button_release(&mut p, 958, 500);
    assert!(matches!(r.as_slice(), [Effect::UngrabPointer, Effect::SetRootCursor(Cursor::Normal), Effect::ReleasePointer]));
}

#[test]
fn click_focuses_and_passes_the_click_on() {
    let mut wm = two_tiles();
    let frames = FrameManager::new();
    let mut p = PointerState::new();
    let e = wm.handle_button_press(&mut p, &frames, 100, 0, 1, 0, 300, 300);
    assert!(matches!(e.as_slice(), [Effect::GrabButton(101), Effect::Focus(100, false), Effect::UngrabButton(100), Effect::ReplayPointer]));
    assert_eq!(wm.focused_window, Some(100));
    let again = wm.handle_button_press(&mut p, &frames, 100, 0, 1, 0, 300, 300);
    assert!(again.is_empty());
    let stranger = wm.handle_button_press(&mut p, &frames, 777, 0, 2, 0, 300, 300);
    assert!(matches!(stranger.as_slice(), [Effect::ReplayPointer]));
}

#[test]
fn a_frame_stands_for_its_client() {
    let mut wm = two_tiles();
    let mut frames = FrameManager::new();
    frames.track(100, 900);
    let d = wm.press_decision(&frames, false, 900, 0, 2, 0, 300, 300);
    assert!(matches!(d, Press::FocusClick { window: 100 }));
    let mut p = PointerState::new();
    wm.handle_button_press(&mut p, &frames, 900, 0, 2, 0, 300, 300);
    assert_eq!(wm.focused_window, Some(100));
}

#[test]
fn hovering_a_border_shows_the_double_arrow() {
    let mut wm = two_tiles();
    let mut frames = FrameManager::new();
    frames.track(101, 901);
    let mut p = PointerState::new();
    let e = wm.handle_motion_notify(&mut p, &frames, 100, 957, 500);
    assert!(matches!(
        e.as_slice(),
        [
            Effect::SetWindowCursor(100, Cursor::HorizontalDouble),
            Effect::SetWindowCursor(901, Cursor::HorizontalDouble),
            Effect::SetWindowCursor(100, Cursor::HorizontalDouble),
            Effect::SetWindowCursor(101, Cursor::HorizontalDouble),
        ]
    ));
    assert_eq!(p.tiled_edge_cursor, Some((100, 101, Direction::Right)));
    assert!(wm.handle_motion_notify(&mut p, &frames, 100, 957, 510).is_empty());
    let away = wm.handle_motion_notify(&mut p, &frames, 555, 10, 10);
    assert!(matches!(away.as_slice(), [Effect::ClearWindowCursor(100), Effect::ClearWindowCursor(101)]));
    assert_eq!(p.tiled_edge_cursor, None);
}

#[test]
fn hovering_a_floating_edge_sets_its_cursor() {
    let mut wm = two_tiles();
    wm.manage_window_floating(200);
    let frames = FrameManager::new();
    let mut p = PointerState::new();
    let e = wm.handle_motion_notify(&mut p, &frames, 200, 642, 500);
    assert!(matches!(e.as_slice(), [Effect::SetWindowCursor(200, Cursor::Left)]));
    assert_eq!(p.edge_cursor, Some((200, ResizeEdge::Left)));
    let inside = wm.handle_motion_notify(&mut p, &frames, 200, 900, 500);
    assert!(matches!(inside.as_slice(), [Effect::ClearWindowCursor(200)]));
    assert_eq!(p.edge_cursor, Some((200, ResizeEdge::NoEdge)));
}

#[test]
fn cursor_shapes_for_edges() {
    let wm = two_tiles();
    assert_eq!(wm.cursor_for_edge(ResizeEdge::TopLeft), Cursor::TopLeft);
    assert_eq!(wm.cursor_for_edge(ResizeEdge::NoEdge), Cursor::Normal);
}
