use gar::wm::tree::{Direction, Node, Rect, SplitDirection, RATIO_HALF, RATIO_MAX, RATIO_MIN};

fn screen() -> Rect {
    Rect::new(0, 0, 1920, 1080)
}

fn geoms(t: &Node, r: Rect) -> Vec<(u32, i16, i16, u16, u16)> {
    t.calculate_geometries(r).iter().map(|(w, g)| (*w, g.x, g.y, g.width, g.height)).collect()
}

#[test]
fn empty_tree_has_no_windows() {
    let t = Node::empty();
    assert!(t.is_empty());
    assert_eq!(t.window_count(), 0);
    assert!(t.windows().is_empty());
    assert_eq!(t.first_window(), None);
    assert!(geoms(&t, screen()).is_empty());
}

#[test]
fn first_insert_fills_the_leaf() {
    let mut t = Node::empty();
    t.insert_with_rect(10, None, screen());
    assert_eq!(t.windows(), vec![10]);
    assert_eq!(geoms(&t, screen()), vec![(10, 0, 0, 1920, 1080)]);
}

#[test]
fn wide_container_splits_side_by_side() {
    let mut t = Node::empty();
    t.insert_with_rect(1, None, screen());
    t.insert_with_rect(2, Some(1), screen());
    assert_eq!(geoms(&t, screen()), vec![(1, 0, 0, 960, 1080), (2, 960, 0, 960, 1080)]);
}

#[test]
fn tall_container_splits_top_and_bottom() {
    let tall = Rect::new(0, 0, 800, 1200);
    let mut t = Node::empty();
    t.insert_with_rect(1, None, tall);
    t.insert_with_rect(2, Some(1), tall);
    assert_eq!(geoms(&t, tall), vec![(1, 0, 0, 800, 600), (2, 0, 600, 800, 600)]);
}

#[test]
fn smart_split_prefers_the_longer_side() {
    assert_eq!(Node::smart_split_direction(&Rect::new(0, 0, 1920, 1080)), SplitDirection::Vertical);
    assert_eq!(Node::smart_split_direction(&Rect::new(0, 0, 1080, 1920)), SplitDirection::Horizontal);
    assert_eq!(Node::smart_split_direction(&Rect::new(0, 0, 500, 500)), SplitDirection::Horizontal);
}

#[test]
fn insert_goes_next_to_the_target() {
    let mut t = Node::empty();
    t.insert_with_rect(1, None, screen());
    t.insert_with_rect(2, Some(1), screen());
    t.insert_with_rect(3, Some(1), screen());
    assert_eq!(t.windows(), vec![1, 3, 2]);
    assert_eq!(
        geoms(&t, screen()),
        vec![(1, 0, 0, 960, 540), (3, 0, 540, 960, 540), (2, 960, 0, 960, 1080)]
    );
}

#[test]
fn insert_with_unknown_target_goes_rightmost() {
    let mut t = Node::empty();
    t.insert(1, None);
    t.insert(2, None);
    t.insert(3, Some(99));
    assert_eq!(t.windows(), vec![1, 2, 3]);
}

#[test]
fn remove_collapses_the_parent() {
    let mut t = Node::empty();
    t.insert_with_rect(1, None, screen());
    t.insert_with_rect(2, Some(1), screen());
    assert!(t.remove(1));
    assert_eq!(t.windows(), vec![2]);
    assert_eq!(geoms(&t, screen()), vec![(2, 0, 0, 1920, 1080)]);
    assert!(!t.remove(1));
    assert!(t.remove(2));
    assert!(t.is_empty());
}

#[test]
fn insert_then_remove_restores_the_layout() {
    let mut t = Node::empty();
    t.insert_with_rect(1, None, screen());
    t.insert_with_rect(2, Some(1), screen());
    let before = geoms(&t, screen());
    t.insert_with_rect(3, Some(2), screen());
    assert!(t.remove(3));
    assert_eq!(geoms(&t, screen()), before);
}

#[test]
fn contains_and_count() {
    let mut t = Node::with_window(5);
    t.insert(6, Some(5));
    assert!(t.contains(5) && t.contains(6) && !t.contains(7));
    assert_eq!(t.window_count(), 2);
    assert_eq!(t.first_window(), Some(5));
}

#[test]
fn resize_moves_the_split_and_clamps() {
    let mut t = Node::empty();
    t.insert_with_rect(1, None, screen());
    t.insert_with_rect(2, Some(1), screen());
    assert!(t.resize(1, Direction::Right, 1000));
    assert_eq!(t.get_split_ratio(1, Direction::Right), Some(6000));
    assert_eq!(geoms(&t, screen())[0], (1, 0, 0, 1152, 1080));
    assert!(t.resize(2, Direction::Right, 1000));
    assert_eq!(t.get_split_ratio(2, Direction::Left), Some(5000));
    assert!(t.resize(1, Direction::Right, 20000));
    assert_eq!(t.get_split_ratio(1, Direction::Right), Some(RATIO_MAX));
    assert!(t.resize(1, Direction::Left, 20000));
    assert_eq!(t.get_split_ratio(1, Direction::Right), Some(RATIO_MIN));
    assert!(!t.resize(1, Direction::Up, 1000));
    assert!(!t.resize(9, Direction::Right, 1000));
}

#[test]
fn equalize_resets_every_split() {
    let mut t = Node::empty();
    t.insert_with_rect(1, None, screen());
    t.insert_with_rect(2, Some(1), screen());
    t.resize(1, Direction::Right, 2500);
    t.equalize();
    assert_eq!(t.get_split_ratio(1, Direction::Right), Some(RATIO_HALF));
}

#[test]
fn set_split_ratio_then_read_back() {
    let mut t = Node::empty();
    t.insert_with_rect(1, None, screen());
    t.insert_with_rect(2, Some(1), screen());
    assert!(t.set_split_ratio(2, Direction::Left, 3000));
    assert_eq!(t.get_split_ratio(1, Direction::Right), Some(3000));
    assert!(!t.set_split_ratio(1, Direction::Down, 3000));
    assert_eq!(t.get_split_ratio(1, Direction::Down), None);
}

#[test]
fn swap_twice_is_the_identity() {
    let mut t = Node::empty();
    t.insert_with_rect(1, None, screen());
    t.insert_with_rect(2, Some(1), screen());
    t.insert_with_rect(3, Some(2), screen());
    let before = geoms(&t, screen());
    assert!(t.swap(1, 3));
    assert_eq!(t.windows(), vec![3, 2, 1]);
    assert!(t.swap(1, 3));
    assert_eq!(geoms(&t, screen()), before);
    assert!(!t.swap(1, 1));
    assert!(!t.swap(1, 42));
}

#[test]
fn copy_is_equal() {
    let mut t = Node::empty();
    t.insert_with_rect(1, None, screen());
    t.insert_with_rect(2, Some(1), screen());
    let c = t.copy();
    assert_eq!(geoms(&c, screen()), geoms(&t, screen()));
}

#[test]
fn split_rect_exact_values() {
    let (a, b) = Rect::new(10, 20, 101, 50).split(SplitDirection::Vertical, 5000);
    assert_eq!((a.x, a.y, a.width, a.height), (10, 20, 50, 50));
    assert_eq!((b.x, b.y, b.width, b.height), (60, 20, 51, 50));
    let (c, d) = Rect::new(0, 0, 100, 100).split(SplitDirection::Horizontal, 2500);
    assert_eq!((c.height, d.y, d.height), (25, 25, 75));
}

#[test]
fn find_adjacent_picks_the_nearest_aligned() {
    let g = vec![
        (1, Rect::new(0, 0, 960, 1080)),
        (2, Rect::new(960, 0, 960, 540)),
        (3, Rect::new(960, 540, 960, 540)),
    ];
    assert_eq!(Node::find_adjacent(&g, 1, Direction::Right), Some(2));
    // Alignment counts ten times the distance: window 1's center is nearer.
    assert_eq!(Node::find_adjacent(&g, 2, Direction::Down), Some(1));
    assert_eq!(Node::find_adjacent(&g, 3, Direction::Up), Some(1));
    assert_eq!(Node::find_adjacent(&g, 2, Direction::Left), Some(1));
    assert_eq!(Node::find_adjacent(&g, 1, Direction::Left), None);
    assert_eq!(Node::find_adjacent(&g, 9, Direction::Left), None);
}

#[test]
fn resize_moves_the_nearest_split() {
    let wide = Rect::new(0, 0, 4000, 1000);
    let mut t = Node::empty();
    t.insert_with_rect(1, None, wide);
    t.insert_with_rect(2, Some(1), wide);
    t.insert_with_rect(3, Some(2), wide);
    assert_eq!(t.windows(), vec![1, 2, 3]);
    assert!(t.resize(2, Direction::Right, 500));
    assert_eq!(t.get_split_ratio(2, Direction::Right), Some(5500));
    assert_eq!(t.get_split_ratio(3, Direction::Left), Some(5500));
    assert_eq!(t.get_split_ratio(1, Direction::Right), Some(5000));
    assert_eq!(geoms(&t, wide), vec![(1, 0, 0, 2000, 1000), (2, 2000, 0, 1100, 1000), (3, 3100, 0, 900, 1000)]);
}

#[test]
fn layout_tiles_the_screen() {
    let mut t = Node::empty();
    for w in 1..=5u32 {
        t.insert_with_rect(w, Some(w - 1).filter(|p| *p > 0), screen());
    }
    t.resize(3, Direction::Down, 1200);
    let g = geoms(&t, screen());
    assert_eq!(g.len(), 5);
    let area: u64 = g.iter().map(|&(_, _, _, w, h)| w as u64 * h as u64).sum();
    assert_eq!(area, 1920 * 1080);
    for i in 0..g.len() {
        for j in (i + 1)..g.len() {
            let (_, ax, ay, aw, ah) = g[i];
            let (_, bx, by, bw, bh) = g[j];
            let (ax, ay, aw, ah) = (ax as i32, ay as i32, aw as i32, ah as i32);
            let (bx, by, bw, bh) = (bx as i32, by as i32, bw as i32, bh as i32);
            assert!(ax + aw <= bx || bx + bw <= ax || ay + ah <= by || by + bh <= ay);
        }
    }
}
