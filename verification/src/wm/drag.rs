//! Pointer presses and drags: moving and resizing floating windows,
//! swapping tiles by dragging one onto another, and dragging the border
//! between two tiles.
use vstd::prelude::*;
use crate::wm::actions::{only_changed, window_floats};
use crate::wm::edges::{
    gap_pixels, spec_edge_from_gap, spec_tiled_resize_edge, tiles_fit,
};
use crate::wm::layout::work_area;
use crate::wm::manager::{Effect, WindowManager};
use crate::wm::tree::{rect_fits, Direction, Node, Rect, XWindow, RATIO_HALF};
use crate::wm::tree_laws::{law_layout_fits, lemma_ratios_in_scale, rect_within};
use crate::wm::workspace::Workspace;
use crate::x11::events::{
    determine_resize_edge, determine_resize_edge_quadrant, spec_resize_edge,
    spec_resize_edge_quadrant, ResizeEdge,
};
use crate::x11::frames::FrameManager;

verus! {

broadcast use vstd::std_specs::hash::group_hash_axioms;

/// The modifier bits that start a drag: Alt (Mod1) and Super (Mod4).
pub const DRAG_MODIFIERS: u16 = 0x48;

/// A pointer shape.
#[derive(Debug, Clone, Copy, PartialEq, Eq, Structural)]
pub enum Cursor {
    Normal,
    Move,
    TopLeft,
    Top,
    TopRight,
    Left,
    Right,
    BottomLeft,
    Bottom,
    BottomRight,
    /// Double arrow, left and right.
    HorizontalDouble,
    /// Double arrow, up and down.
    VerticalDouble,
}

/// A drag under way.
#[derive(Debug)]
pub enum DragState {
    Move { window: XWindow, start_x: i16, start_y: i16, start_geometry: Rect },
    Resize { window: XWindow, start_x: i16, start_y: i16, start_geometry: Rect, edge: ResizeEdge },
    /// Dragging a tile onto another to swap them.
    TiledSwap {
        window: XWindow,
        /// Where the tile was grabbed, from its origin.
        grab_offset_x: i16,
        grab_offset_y: i16,
        /// The tree before the drag, to go back to if the workspace changes.
        original_tree: Node,
        /// The tiles as last laid out.
        tiled_geometries: Vec<(XWindow, Rect)>,
        /// The tile under the pointer, shown as the swap target.
        hover_target: Option<XWindow>,
        workspace: usize,
    },
    /// Dragging the border between two tiles.
    TiledResize {
        /// `Right` for a border between tiles side by side, `Down` for one
        /// between tiles one above the other.
        direction: Direction,
        /// The pointer coordinate across the border when the drag began.
        start_pos: i16,
        start_ratio: u32,
        /// The window left of or above the border.
        window: XWindow,
        /// The two tiles' size across the border, for turning pixels into ratio.
        container_size: u16,
        workspace: usize,
    },
}

/// What the pointer is doing: a drag, and the resize cursors shown.
pub struct PointerState {
    pub drag: Option<DragState>,
    /// The floating window and edge whose resize cursor is shown.
    pub edge_cursor: Option<(XWindow, ResizeEdge)>,
    /// The two tiles and the direction of the border whose cursor is shown.
    pub tiled_edge_cursor: Option<(XWindow, XWindow, Direction)>,
}

impl PointerState {
    pub fn new() -> (p: PointerState)
        ensures
            p.drag is None,
            p.edge_cursor is None,
            p.tiled_edge_cursor is None,
    {
        PointerState { drag: None, edge_cursor: None, tiled_edge_cursor: None }
    }
}

/// The cursor for resizing from `edge`.
pub open spec fn edge_cursor(edge: ResizeEdge) -> Cursor {
    match edge {
        ResizeEdge::TopLeft => Cursor::TopLeft,
        ResizeEdge::Top => Cursor::Top,
        ResizeEdge::TopRight => Cursor::TopRight,
        ResizeEdge::Left => Cursor::Left,
        ResizeEdge::Right => Cursor::Right,
        ResizeEdge::BottomLeft => Cursor::BottomLeft,
        ResizeEdge::Bottom => Cursor::Bottom,
        ResizeEdge::BottomRight => Cursor::BottomRight,
        ResizeEdge::NoEdge => Cursor::Normal,
    }
}

/// The cursor for dragging a border between tiles moved by `direction`.
pub open spec fn border_cursor(direction: Direction) -> Cursor {
    match direction {
        Direction::Left | Direction::Right => Cursor::HorizontalDouble,
        Direction::Up | Direction::Down => Cursor::VerticalDouble,
    }
}

/// The first rectangle `g` gives `w`.
pub open spec fn first_rect(g: Seq<(XWindow, Rect)>, w: XWindow) -> Option<Rect>
    decreases g.len(),
{
    if g.len() == 0 {
        None
    } else if g[0].0 == w {
        Some(g[0].1)
    } else {
        first_rect(g.drop_first(), w)
    }
}

pub open spec fn zero_rect() -> Rect {
    Rect { x: 0, y: 0, width: 0, height: 0 }
}

/// The recorded floating geometry of `w` (all zero for a window not managed).
pub open spec fn floating_geometry_of(o: WindowManager, w: XWindow) -> Rect {
    if o.windows@.contains_key(w) { o.windows@[w].floating_geometry } else { zero_rect() }
}

/// The floating windows of the focused workspace with `w` moved to the top.
pub open spec fn raised_order(s: Seq<XWindow>, w: XWindow) -> Seq<XWindow> {
    match s.index_of_first(w) {
        Some(i) => s.remove(i).push(w),
        None => s,
    }
}

/// What a pointer press does.
#[derive(Debug, Clone, Copy)]
pub enum Press {
    /// A drag is under way: the press is ignored.
    Busy,
    /// Move the floating window with the pointer.
    Move { window: XWindow, geometry: Rect },
    /// Resize the floating window from an edge or corner.
    Resize { window: XWindow, geometry: Rect, edge: ResizeEdge },
    /// Drag the tile onto another to swap them.
    Swap { window: XWindow },
    /// Drag the border after tile `first`, with the two tiles' size across
    /// it and the ratio of the split it moves.
    Border { first: XWindow, direction: Direction, container: u16, ratio: u32 },
    /// Let the press through to the window under the pointer.
    PassOn,
    /// Raise the focused floating window and let the press through.
    RaisePassOn { window: XWindow },
    /// Focus the window pressed on (raising it when it floats) and let the
    /// press through.
    FocusClick { window: XWindow },
    /// Nothing to do.
    Nothing,
}

impl WindowManager {
    /// The area the focused monitor's tiles fill: its geometry less the
    /// outer gap.
    pub open spec fn spec_work_area(&self) -> Rect {
        work_area(self.spec_screen_rect(), self.gap_outer16())
    }

    /// The work area can be formed and fits the coordinate space.
    pub open spec fn work_area_ok(&self) -> bool {
        let s = self.spec_screen_rect();
        &&& i16::MIN <= s.x + self.gap_outer16() <= i16::MAX
        &&& i16::MIN <= s.y + self.gap_outer16() <= i16::MAX
        &&& 2 * (self.gap_outer16() as u16) <= u16::MAX
        &&& rect_fits(self.spec_work_area())
    }

    /// A press computes the work area only when it may start a border
    /// drag: a plain press of button 1 while no drag is under way.
    pub open spec fn press_uses_work_area(busy: bool, button: u8, state: u16) -> bool {
        !busy && state & DRAG_MODIFIERS == 0 && button == 1
    }

    /// The tiles of the focused workspace laid out in `r`.
    pub open spec fn focused_tiles(&self, r: Rect) -> Seq<(XWindow, Rect)> {
        self.workspaces@[self.focused_workspace as int].tree.spec_geometries(r)
    }

    /// The tiled window a press without modifier can start a border drag
    /// from: the child when it is a managed tile, else the window pressed
    /// on when it is one, else none (0).
    pub open spec fn press_tile(&self, window: XWindow, target: XWindow) -> XWindow {
        if self.windows@.contains_key(target) && !window_floats(*self, target) {
            target
        } else if self.windows@.contains_key(window) && !window_floats(*self, window) {
            window
        } else {
            0
        }
    }

    /// The border a press at the point is on: that of tile `tile` when
    /// there is one, else the one whose gap the point is in.
    pub open spec fn press_border(&self, tile: XWindow, x: i16, y: i16) -> Option<(XWindow, XWindow, Direction)> {
        let g = self.focused_tiles(self.spec_work_area());
        let gap = gap_pixels(self.config.gap_inner);
        if tile != 0 {
            match first_rect(g, tile) {
                Some(r) => spec_tiled_resize_edge(g, tile, r, x as int, y as int, gap),
                None => None,
            }
        } else {
            spec_edge_from_gap(g, x as int, y as int, gap)
        }
    }

    /// The size across the border of the two tiles on either side of it,
    /// or that of the work area when one of them is not laid out.
    pub open spec fn border_container(&self, a: XWindow, b: XWindow, direction: Direction) -> u16 {
        let g = self.focused_tiles(self.spec_work_area());
        let area = self.spec_work_area();
        match (first_rect(g, a), first_rect(g, b)) {
            (Some(r1), Some(r2)) => match direction {
                Direction::Left | Direction::Right => (r1.width + r2.width) as u16,
                Direction::Up | Direction::Down => (r1.height + r2.height) as u16,
            },
            _ => match direction {
                Direction::Left | Direction::Right => area.width,
                Direction::Up | Direction::Down => area.height,
            },
        }
    }

    /// The ratio of the split a border drag after `a` moves (one half when
    /// there is none).
    pub open spec fn border_ratio(&self, a: XWindow, direction: Direction) -> u32 {
        match self.workspaces@[self.focused_workspace as int].tree.spec_split_ratio(a, direction) {
            Some(r) => r,
            None => RATIO_HALF,
        }
    }

    /// What a press of `button` with modifier state `state` at `(x, y)` on
    /// `event_window` (whose child under the pointer is `child`) does, a
    /// frame standing for its client: a modifier press moves (button 1) or
    /// resizes (button 3) a floating window and swaps a tile (button 1);
    /// a plain press of button 1 drags the border of a tile it is on, is
    /// let through when it is in no tile, and resizes a floating window
    /// from the edge it is on; any other press on a managed window focuses
    /// it, and one on a window not managed is let through.
    pub open spec fn spec_press(&self, frames: FrameManager, busy: bool, event_window: XWindow, child: XWindow, button: u8, state: u16, x: i16, y: i16) -> Press {
        let window = if frames.clients().contains_key(event_window) { frames.clients()[event_window] } else { event_window };
        let has_mod = state & DRAG_MODIFIERS != 0;
        let target = if window == self.root && child != 0 { child } else { window };
        let tile = self.press_tile(window, target);
        let border = self.press_border(tile, x, y);
        if busy {
            Press::Busy
        } else if has_mod && window_floats(*self, target) && button == 1 {
            Press::Move { window: target, geometry: floating_geometry_of(*self, target) }
        } else if has_mod && window_floats(*self, target) && button == 3 {
            let g = floating_geometry_of(*self, target);
            Press::Resize { window: target, geometry: g, edge: spec_resize_edge_quadrant(g, x, y) }
        } else if has_mod && !window_floats(*self, target) && self.windows@.contains_key(target) && button == 1
            && self.workspaces@[self.focused_workspace as int].tree.window_seq().contains(target) {
            Press::Swap { window: target }
        } else if !has_mod && button == 1 && border is Some {
            let (a, b, d) = border->0;
            Press::Border {
                first: a,
                direction: d,
                container: self.border_container(a, b, d),
                ratio: self.border_ratio(a, d),
            }
        } else if !has_mod && button == 1 && tile == 0 {
            Press::PassOn
        } else if !has_mod && window_floats(*self, window) && button == 1
            && spec_resize_edge(floating_geometry_of(*self, window), x, y) != ResizeEdge::NoEdge {
            let g = floating_geometry_of(*self, window);
            Press::Resize { window, geometry: g, edge: spec_resize_edge(g, x, y) }
        } else if !has_mod && window_floats(*self, window) && button == 1 && self.focused_window == Some(window) {
            Press::RaisePassOn { window }
        } else if !self.windows@.contains_key(window) {
            Press::PassOn
        } else if self.focused_window != Some(window) {
            Press::FocusClick { window }
        } else {
            Press::Nothing
        }
    }
}

/// The first rectangle `g` gives `w` (see `first_rect`).
pub fn find_rect(g: &[(XWindow, Rect)], w: XWindow) -> (r: Option<Rect>)
    ensures
        r == first_rect(g@, w),
{
    let mut i: usize = 0;
    assert(g@.subrange(0, g@.len() as int) =~= g@);
    while i < g.len()
        invariant
            i <= g@.len(),
            first_rect(g@, w) == first_rect(g@.subrange(i as int, g@.len() as int), w),
        decreases g@.len() - i,
    {
        let ghost rest = g@.subrange(i as int, g@.len() as int);
        assert(rest[0] == g@[i as int]);
        assert(rest.drop_first() =~= g@.subrange(i + 1, g@.len() as int));
        if g[i].0 == w {
            return Some(g[i].1);
        }
        i = i + 1;
    }
    assert(g@.subrange(i as int, g@.len() as int) =~= Seq::<(XWindow, Rect)>::empty());
    None
}

/// A rectangle of `g` belongs to it.
proof fn lemma_first_rect_in(g: Seq<(XWindow, Rect)>, w: XWindow)
    ensures
        first_rect(g, w) matches Some(r) ==> exists|i: int| 0 <= i < g.len() && #[trigger] g[i] == (w, r),
    decreases g.len(),
{
    if g.len() > 0 && g[0].0 != w {
        lemma_first_rect_in(g.drop_first(), w);
        if let Some(r) = first_rect(g, w) {
            let i = choose|i: int| 0 <= i < g.drop_first().len() && #[trigger] g.drop_first()[i] == (w, r);
            assert(g[i + 1] == (w, r));
        }
    }
}

impl WindowManager {
    /// Whether `window` is managed and floats.
    pub fn is_floating(&self, window: XWindow) -> (b: bool)
        ensures
            b == window_floats(*self, window),
    {
        match self.windows.get(&window) {
            Some(w) => w.floating,
            None => false,
        }
    }

    /// The recorded floating geometry of `window` (all zero when it is
    /// not managed).
    pub fn get_floating_geometry(&self, window: XWindow) -> (r: Rect)
        ensures
            r == floating_geometry_of(*self, window),
    {
        match self.windows.get(&window) {
            Some(w) => w.floating_geometry,
            None => Rect::new(0, 0, 0, 0),
        }
    }

    /// The cursor for resizing from `edge`.
    pub fn cursor_for_edge(&self, edge: ResizeEdge) -> (c: Cursor)
        ensures
            c == edge_cursor(edge),
    {
        match edge {
            ResizeEdge::TopLeft => Cursor::TopLeft,
            ResizeEdge::Top => Cursor::Top,
            ResizeEdge::TopRight => Cursor::TopRight,
            ResizeEdge::Left => Cursor::Left,
            ResizeEdge::Right => Cursor::Right,
            ResizeEdge::BottomLeft => Cursor::BottomLeft,
            ResizeEdge::Bottom => Cursor::Bottom,
            ResizeEdge::BottomRight => Cursor::BottomRight,
            ResizeEdge::NoEdge => Cursor::Normal,
        }
    }

    /// Whether the work area can be formed (see `work_area_ok`).
    pub fn work_area_fits(&self) -> (b: bool)
        requires
            self.wf(),
        ensures
            b == self.work_area_ok(),
    {
        let s = self.monitors[self.focused_monitor].geometry;
        let go = (self.config.gap_outer as i16) as i32;
        let x = s.x as i32 + go;
        let y = s.y as i32 + go;
        let g2 = 2 * ((self.config.gap_outer as i16) as u16) as u32;
        if x < -32768 || x > 32767 || y < -32768 || y > 32767 || g2 > 65535 {
            return false;
        }
        let w = if s.width as u32 >= g2 { s.width as u32 - g2 } else { 0 };
        let h = if s.height as u32 >= g2 { s.height as u32 - g2 } else { 0 };
        w <= 32767 && h <= 32767 && x + w as i32 <= 32767 && y + h as i32 <= 32767
    }

    /// The area the focused monitor's tiles fill (see `spec_work_area`).
    pub fn work_area(&self) -> (r: Rect)
        requires
            self.wf(),
            self.work_area_ok(),
        ensures
            r == self.spec_work_area(),
    {
        let s = self.monitors[self.focused_monitor].geometry;
        let go = self.config.gap_outer as i16;
        let g2: u16 = 2 * (go as u16);
        let w: u16 = if s.width >= g2 { s.width - g2 } else { 0 };
        let h: u16 = if s.height >= g2 { s.height - g2 } else { 0 };
        Rect::new(s.x + go, s.y + go, w, h)
    }

    /// The tiles of the focused workspace laid out in `r`, each fitting
    /// the coordinate space.
    fn tiles_in(&self, r: Rect) -> (g: Vec<(XWindow, Rect)>)
        requires
            self.wf(),
            rect_fits(r),
        ensures
            g@ == self.focused_tiles(r),
            tiles_fit(g@),
    {
        let fw = self.focused_workspace;
        proof {
            assert(self.workspaces@[fw as int].wf());
            lemma_ratios_in_scale(self.workspaces@[fw as int].tree);
            law_layout_fits(self.workspaces@[fw as int].tree, r, None);
        }
        let g = self.workspaces[fw].tree.calculate_geometries(r);
        proof {
            assert forall|i: int| 0 <= i < g@.len() implies rect_fits(#[trigger] g@[i].1) by {
                assert(rect_within(g@[i].1, r));
            }
        }
        g
    }

    fn press_border_of(&self, tile: XWindow, x: i16, y: i16) -> (res: (Option<(XWindow, XWindow, Direction)>, Vec<(XWindow, Rect)>))
        requires
            self.wf(),
            self.work_area_ok(),
        ensures
            res.0 == self.press_border(tile, x, y),
            res.1@ == self.focused_tiles(self.spec_work_area()),
            tiles_fit(res.1@),
    {
        let area = self.work_area();
        let g = self.tiles_in(area);
        if tile != 0 {
            let found = find_rect(g.as_slice(), tile);
            match found {
                Some(r) => {
                    proof {
                        lemma_first_rect_in(g@, tile);
                        let i = choose|i: int| 0 <= i < g@.len() && #[trigger] g@[i] == (tile, r);
                        assert(rect_fits(g@[i].1));
                    }
                    let e = self.find_tiled_resize_edge(tile, &r, x, y, g.as_slice());
                    (e, g)
                },
                None => (None, g),
            }
        } else {
            let e = self.find_edge_from_gap(x, y, g.as_slice());
            (e, g)
        }
    }

    fn border_container_of(&self, g: &Vec<(XWindow, Rect)>, a: XWindow, b: XWindow, direction: Direction) -> (c: u16)
        requires
            self.wf(),
            self.work_area_ok(),
            g@ == self.focused_tiles(self.spec_work_area()),
            tiles_fit(g@),
        ensures
            c == self.border_container(a, b, direction),
    {
        let r1 = find_rect(g.as_slice(), a);
        let r2 = find_rect(g.as_slice(), b);
        match (r1, r2) {
            (Some(p), Some(q)) => {
                proof {
                    lemma_first_rect_in(g@, a);
                    lemma_first_rect_in(g@, b);
                    let i = choose|i: int| 0 <= i < g@.len() && #[trigger] g@[i] == (a, p);
                    let j = choose|j: int| 0 <= j < g@.len() && #[trigger] g@[j] == (b, q);
                    assert(rect_fits(g@[i].1));
                    assert(rect_fits(g@[j].1));
                }
                match direction {
                    Direction::Left | Direction::Right => p.width + q.width,
                    Direction::Up | Direction::Down => p.height + q.height,
                }
            },
            _ => {
                let area = self.work_area();
                match direction {
                    Direction::Left | Direction::Right => area.width,
                    Direction::Up | Direction::Down => area.height,
                }
            },
        }
    }

    /// What a press does (see `spec_press`); `busy` tells whether a drag
    /// is under way.
    pub fn press_decision(&self, frames: &FrameManager, busy: bool, event_window: XWindow, child: XWindow, button: u8, state: u16, x: i16, y: i16) -> (p: Press)
        requires
            self.wf(),
            Self::press_uses_work_area(busy, button, state) ==> self.work_area_ok(),
        ensures
            p == self.spec_press(*frames, busy, event_window, child, button, state, x, y),
    {
        if busy {
            return Press::Busy;
        }
        let window = frames.client_or_self(event_window);
        let has_mod = state & DRAG_MODIFIERS != 0;
        let target = if window == self.root && child != 0 { child } else { window };
        let target_floats = self.is_floating(target);
        if has_mod && target_floats && button == 1 {
            return Press::Move { window: target, geometry: self.get_floating_geometry(target) };
        }
        if has_mod && target_floats && button == 3 {
            let g = self.get_floating_geometry(target);
            return Press::Resize { window: target, geometry: g, edge: determine_resize_edge_quadrant(&g, x, y) };
        }
        if has_mod && !target_floats && self.windows.contains_key(&target) && button == 1
            && self.workspaces[self.focused_workspace].tree.contains(target) {
            return Press::Swap { window: target };
        }
        let window_managed = self.windows.contains_key(&window);
        let window_floats_now = self.is_floating(window);
        let tile = if self.windows.contains_key(&target) && !target_floats {
            target
        } else if window_managed && !window_floats_now {
            window
        } else {
            0
        };
        if !has_mod && button == 1 {
            let (border, g) = self.press_border_of(tile, x, y);
            match border {
                Some((a, b, d)) => {
                    let container = self.border_container_of(&g, a, b, d);
                    let ratio = match self.workspaces[self.focused_workspace].tree.get_split_ratio(a, d) {
                        Some(r) => r,
                        None => RATIO_HALF,
                    };
                    return Press::Border { first: a, direction: d, container, ratio };
                },
                None => {},
            }
            if tile == 0 {
                return Press::PassOn;
            }
        }
        if !has_mod && window_floats_now && button == 1 {
            let g = self.get_floating_geometry(window);
            let edge = determine_resize_edge(&g, x, y);
            if edge != ResizeEdge::NoEdge {
                return Press::Resize { window, geometry: g, edge };
            }
            if self.focused_window == Some(window) {
                return Press::RaisePassOn { window };
            }
        }
        if !window_managed {
            return Press::PassOn;
        }
        if self.focused_window != Some(window) {
            Press::FocusClick { window }
        } else {
            Press::Nothing
        }
    }
}


/// The drag a swap press on `window` at `(x, y)` starts: grabbed at the
/// offset of the point from the tile's origin (taken modulo 2^16 as `i16`
/// subtraction wraps), with the tree and the tiles of the focused
/// workspace laid out on the focused monitor.
pub open spec fn swap_drag(o: WindowManager, d: Option<DragState>, window: XWindow, x: i16, y: i16) -> bool {
    let g = o.focused_tiles(o.spec_screen_rect());
    let wg = match first_rect(g, window) {
        Some(r) => r,
        None => zero_rect(),
    };
    &&& d is Some
    &&& d->0 matches DragState::TiledSwap {
        window: w,
        grab_offset_x: ox,
        grab_offset_y: oy,
        original_tree: t,
        tiled_geometries: tg,
        hover_target: h,
        workspace: ws,
    }
    &&& w == window
    &&& ox == x.wrapping_sub(wg.x)
    &&& oy == y.wrapping_sub(wg.y)
    &&& t == o.workspaces@[o.focused_workspace as int].tree
    &&& tg@ == g
    &&& h is None
    &&& ws == o.focused_workspace
}

/// The state `f` is `o` with `window` focused and, when it floats, raised
/// to the top of the focused workspace's floating windows.
pub open spec fn focus_clicked(o: WindowManager, f: WindowManager, window: XWindow, focus: bool) -> bool {
    let fw = o.focused_workspace as int;
    let ws = o.workspaces@[fw];
    let ws2 = f.workspaces@[fw];
    &&& f.focused_window == (if focus { Some(window) } else { o.focused_window })
    &&& f.windows@ == o.windows@
    &&& f.monitors@ == o.monitors@
    &&& f.focused_workspace == o.focused_workspace
    &&& f.focused_monitor == o.focused_monitor
    &&& f.config == o.config
    &&& f.root == o.root
    &&& f.screen_width == o.screen_width
    &&& f.screen_height == o.screen_height
    &&& f.running == o.running
    &&& only_changed(o.workspaces@, f.workspaces@, fw)
    &&& ws2.tree == ws.tree
    &&& ws2.focused == (if focus { Some(window) } else { ws.focused })
    &&& ws2.name == ws.name
    &&& ws2.id == ws.id
    &&& ws2.visible == ws.visible
    &&& ws2.last_monitor == ws.last_monitor
    &&& ws2.floating@ == (if window_floats(o, window) { raised_order(ws.floating@, window) } else { ws.floating@ })
}

/// What the press `p` at `(x, y)` does to the state (`o` to `f`) and the
/// pointer (`op` to `fp`), and the effects it has, in order.
pub open spec fn pressed(o: WindowManager, f: WindowManager, op: PointerState, fp: PointerState, p: Press, x: i16, y: i16, effects: Seq<Effect>) -> bool {
    &&& fp.edge_cursor == op.edge_cursor
    &&& fp.tiled_edge_cursor == op.tiled_edge_cursor
    &&& match p {
        Press::Busy | Press::Nothing => f == o && fp.drag == op.drag && effects.len() == 0,
        Press::PassOn => f == o && fp.drag == op.drag && effects =~= seq![Effect::ReplayPointer],
        Press::Move { window, geometry } => {
            &&& f == o
            &&& fp.drag == Some(DragState::Move { window, start_x: x, start_y: y, start_geometry: geometry })
            &&& effects =~= seq![Effect::ClearWindowCursor(window), Effect::GrabPointer(Cursor::Move)]
        },
        Press::Resize { window, geometry, edge } => {
            &&& f == o
            &&& fp.drag == Some(DragState::Resize { window, start_x: x, start_y: y, start_geometry: geometry, edge })
            &&& effects =~= seq![Effect::ClearWindowCursor(window), Effect::GrabPointer(edge_cursor(edge))]
        },
        Press::Swap { window } => {
            &&& f == o
            &&& swap_drag(o, fp.drag, window, x, y)
            &&& effects =~= seq![Effect::Raise(window), Effect::GrabPointer(Cursor::Move)]
        },
        Press::Border { first, direction, container, ratio } => {
            &&& f == o
            &&& fp.drag == Some(DragState::TiledResize {
                direction,
                start_pos: match direction {
                    Direction::Left | Direction::Right => x,
                    Direction::Up | Direction::Down => y,
                },
                start_ratio: ratio,
                window: first,
                container_size: container,
                workspace: o.focused_workspace,
            })
            &&& effects =~= seq![Effect::GrabPointer(border_cursor(direction))]
        },
        Press::RaisePassOn { window } => {
            &&& fp.drag == op.drag
            &&& focus_clicked(o, f, window, false)
            &&& effects =~= seq![Effect::Raise(window), Effect::ReplayPointer]
        },
        Press::FocusClick { window } => {
            &&& fp.drag == op.drag
            &&& focus_clicked(o, f, window, true)
            &&& effects =~= (match o.focused_window {
                Some(old) => seq![Effect::GrabButton(old)],
                None => Seq::empty(),
            }) + seq![Effect::Focus(window, false), Effect::UngrabButton(window)]
                + (if window_floats(o, window) { seq![Effect::Raise(window)] } else { Seq::empty() })
                + seq![Effect::ReplayPointer]
        },
    }
}

impl WindowManager {
    /// Handle a press of `button` at `(x, y)` on `event_window` (see
    /// `spec_press` for what it does and `pressed` for how).
    pub fn handle_button_press(&mut self, pointer: &mut PointerState, frames: &FrameManager, event_window: XWindow, child: XWindow, button: u8, state: u16, x: i16, y: i16) -> (effects: Vec<Effect>)
        requires
            old(self).wf(),
            Self::press_uses_work_area(old(pointer).drag is Some, button, state) ==> old(self).work_area_ok(),
            old(pointer).wf(),
        ensures
            final(self).wf(),
            final(pointer).wf(),
            pressed(
                *old(self),
                *final(self),
                *old(pointer),
                *final(pointer),
                old(self).spec_press(*frames, old(pointer).drag is Some, event_window, child, button, state, x, y),
                x,
                y,
                effects@,
            ),
    {
        let busy = pointer.drag.is_some();
        let p = self.press_decision(frames, busy, event_window, child, button, state, x, y);
        let mut effects: Vec<Effect> = Vec::new();
        match p {
            Press::Busy | Press::Nothing => {},
            Press::PassOn => {
                effects.push(Effect::ReplayPointer);
            },
            Press::Move { window, geometry } => {
                pointer.drag = Some(DragState::Move { window, start_x: x, start_y: y, start_geometry: geometry });
                effects.push(Effect::ClearWindowCursor(window));
                effects.push(Effect::GrabPointer(Cursor::Move));
            },
            Press::Resize { window, geometry, edge } => {
                pointer.drag = Some(DragState::Resize { window, start_x: x, start_y: y, start_geometry: geometry, edge });
                effects.push(Effect::ClearWindowCursor(window));
                effects.push(Effect::GrabPointer(self.cursor_for_edge(edge)));
            },
            Press::Swap { window } => {
                let screen = self.screen_rect();
                let g = self.tiles_in(screen);
                let wg = match find_rect(g.as_slice(), window) {
                    Some(r) => r,
                    None => Rect::new(0, 0, 0, 0),
                };
                let fw = self.focused_workspace;
                let original_tree = self.workspaces[fw].tree.copy();
                pointer.drag = Some(DragState::TiledSwap {
                    window,
                    grab_offset_x: x.wrapping_sub(wg.x),
                    grab_offset_y: y.wrapping_sub(wg.y),
                    original_tree,
                    tiled_geometries: g,
                    hover_target: None,
                    workspace: fw,
                });
                effects.push(Effect::Raise(window));
                effects.push(Effect::GrabPointer(Cursor::Move));
            },
            Press::Border { first, direction, container, ratio } => {
                let start_pos = match direction {
                    Direction::Left | Direction::Right => x,
                    Direction::Up | Direction::Down => y,
                };
                pointer.drag = Some(DragState::TiledResize {
                    direction,
                    start_pos,
                    start_ratio: ratio,
                    window: first,
                    container_size: container,
                    workspace: self.focused_workspace,
                });
                let cursor = match direction {
                    Direction::Left | Direction::Right => Cursor::HorizontalDouble,
                    Direction::Up | Direction::Down => Cursor::VerticalDouble,
                };
                effects.push(Effect::GrabPointer(cursor));
            },
            Press::RaisePassOn { window } => {
                let mut e = self.raise_window(window);
                effects.append(&mut e);
                effects.push(Effect::ReplayPointer);
                proof {
                    assert(effects@ =~= seq![Effect::Raise(window), Effect::ReplayPointer]);
                }
            },
            Press::FocusClick { window } => {
                match self.focused_window {
                    Some(old) => {
                        effects.push(Effect::GrabButton(old));
                    },
                    None => {},
                }
                let ghost e0 = effects@;
                let ghost o = *self;
                let mut e = self.set_focus(window, false);
                effects.append(&mut e);
                effects.push(Effect::UngrabButton(window));
                let ghost e1 = effects@;
                if self.is_floating(window) {
                    let mut r = self.raise_window(window);
                    effects.append(&mut r);
                }
                effects.push(Effect::ReplayPointer);
                proof {
                    assert(window_floats(o, window) == window_floats(*self, window));
                    assert(e1 =~= e0 + seq![Effect::Focus(window, false), Effect::UngrabButton(window)]);
                }
            },
        }
        effects
    }
}

} // verus!
