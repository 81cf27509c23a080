//! Pointer motion and release: resize cursors while hovering, and the
//! steps of each kind of drag.
use vstd::prelude::*;
use crate::wm::actions::window_floats;
use crate::wm::drag::{
    border_cursor, edge_cursor, find_rect, first_rect, floating_geometry_of, Cursor, DragState,
    PointerState,
};
use crate::wm::edges::{gap_pixels, spec_tiled_resize_edge, tiles_fit};
use crate::wm::layout::border_color;
use crate::wm::manager::{Effect, WindowManager, WORKSPACE_COUNT};
use crate::wm::tree::{clamp_ratio, rect_fits, wrap_i16, Direction, Rect, XWindow, RATIO_MAX, RATIO_MIN};
use crate::wm::tree_laws::{law_set_split_ratio, law_swap};
use crate::wm::window::Window;
use crate::wm::workspace::Workspace;
use crate::x11::events::{calculate_resize, determine_resize_edge, spec_calculate_resize, spec_resize_edge, ResizeEdge};
use crate::x11::frames::FrameManager;

verus! {

broadcast use vstd::std_specs::hash::group_hash_axioms;

impl PointerState {
    /// A swap drag keeps a well-formed tree to go back to, of an existing
    /// workspace.
    pub open spec fn wf(&self) -> bool {
        self.drag matches Some(DragState::TiledSwap { original_tree, workspace, .. })
            ==> original_tree.wf() && workspace < WORKSPACE_COUNT
    }
}

/// The frame of `w` when it has one, else `w`.
pub open spec fn frame_or_self(frames: FrameManager, w: XWindow) -> XWindow {
    if frames.frames().contains_key(w) { frames.frames()[w] } else { w }
}

/// The resize cursor over floating windows after the pointer moved to
/// `(x, y)` over `window`, from `current`, and what changes on screen: the
/// edge's cursor is shown when the pointer is at an edge; the cursor of the
/// window last at an edge is cleared when it leaves it.
pub open spec fn edge_cursor_step(o: WindowManager, current: Option<(XWindow, ResizeEdge)>, window: XWindow, x: i16, y: i16) -> (Option<(XWindow, ResizeEdge)>, Seq<Effect>) {
    let clear = match current {
        Some((w, e)) => if e != ResizeEdge::NoEdge { seq![Effect::ClearWindowCursor(w)] } else { Seq::empty() },
        None => Seq::empty(),
    };
    if !window_floats(o, window) {
        (None, clear)
    } else {
        let edge = spec_resize_edge(floating_geometry_of(o, window), x, y);
        if current == Some((window, edge)) {
            (current, Seq::empty())
        } else if edge != ResizeEdge::NoEdge {
            (Some((window, edge)), seq![Effect::SetWindowCursor(window, edge_cursor(edge))])
        } else {
            (Some((window, ResizeEdge::NoEdge)), clear)
        }
    }
}

/// The tile border shown as draggable after the pointer moved to `(x, y)`
/// over `window`, from `current`, and what changes on screen: the cursors
/// of the two tiles of the old border (and of their frames) are cleared and
/// those of the new border set.
pub open spec fn tiled_cursor_step(o: WindowManager, frames: FrameManager, current: Option<(XWindow, XWindow, Direction)>, window: XWindow, x: i16, y: i16) -> (Option<(XWindow, XWindow, Direction)>, Seq<Effect>) {
    let g = o.focused_tiles(o.spec_work_area());
    let next = match first_rect(g, window) {
        Some(r) => spec_tiled_resize_edge(g, window, r, x as int, y as int, gap_pixels(o.config.gap_inner)),
        None => None,
    };
    if next == current {
        (current, Seq::empty())
    } else {
        let clear = match current {
            Some((a, b, _)) => {
                let fa = frame_or_self(frames, a);
                let fb = frame_or_self(frames, b);
                seq![Effect::ClearWindowCursor(fa), Effect::ClearWindowCursor(fb)]
                    + (if fa != a { seq![Effect::ClearWindowCursor(a)] } else { Seq::empty() })
                    + (if fb != b { seq![Effect::ClearWindowCursor(b)] } else { Seq::empty() })
            },
            None => Seq::empty(),
        };
        let set = match next {
            Some((a, b, d)) => {
                let c = border_cursor(d);
                seq![
                    Effect::SetWindowCursor(frame_or_self(frames, a), c),
                    Effect::SetWindowCursor(frame_or_self(frames, b), c),
                    Effect::SetWindowCursor(a, c),
                    Effect::SetWindowCursor(b, c),
                ]
            },
            None => Seq::empty(),
        };
        (next, clear + set)
    }
}

/// The first tile of `g` other than `dragged` that the point is in.
pub open spec fn first_hit(g: Seq<(XWindow, Rect)>, dragged: XWindow, x: i16, y: i16) -> Option<XWindow>
    decreases g.len(),
{
    if g.len() == 0 {
        None
    } else {
        let (w, r) = g[0];
        if w != dragged && x >= r.x && x < r.x + wrap_i16(r.width) && y >= r.y && y < r.y + wrap_i16(r.height) {
            Some(w)
        } else {
            first_hit(g.drop_first(), dragged, x, y)
        }
    }
}

/// `a / c` rounded toward zero, as integer division does.
pub open spec fn trunc_div(a: int, c: int) -> int {
    if a >= 0 { a / c } else { -((-a) / c) }
}

/// The ratio after dragging a border `delta` pixels across two tiles
/// `container` pixels long, from `start`: moved by the same share of the
/// whole, kept within `[RATIO_MIN, RATIO_MAX]`; with no length to share,
/// any move goes to the nearer limit.
pub open spec fn dragged_ratio(start: u32, delta: int, container: u16) -> u32 {
    if container == 0 {
        if delta > 0 { RATIO_MAX } else if delta < 0 { RATIO_MIN } else { clamp_ratio(start as int) }
    } else {
        clamp_ratio(start + trunc_div(delta * 10000, container as int))
    }
}

/// The border color of `w` when it stops being the swap target.
pub open spec fn plain_border(o: WindowManager, w: XWindow) -> Effect {
    Effect::SetBorder(w, o.config.border_width, border_color(w, o.focused_window, o.config.border_color_focused, o.config.border_color_unfocused))
}

/// What the pointer moving to `(x, y)` does during a drag `d`, from state
/// `o` and pointer `op` to `f` and `fp`: a move or resize places the
/// floating window anew; a swap drag follows the pointer with the tile and
/// swaps it with the tile it enters; a border drag sets the split ratio.
/// A swap or border drag begun on another workspace than the focused one
/// does nothing.
pub open spec fn drag_moved(o: WindowManager, f: WindowManager, op: PointerState, fp: PointerState, x: i16, y: i16, effects: Seq<Effect>) -> bool {
    let fw = o.focused_workspace as int;
    let ws = o.workspaces@[fw];
    &&& fp.edge_cursor == op.edge_cursor
    &&& fp.tiled_edge_cursor == op.tiled_edge_cursor
    &&& match op.drag {
        None => f == o && fp.drag == op.drag && effects.len() == 0,
        Some(DragState::Move { window, start_x, start_y, start_geometry }) => {
            let nx = start_geometry.x.wrapping_add(x.wrapping_sub(start_x));
            let ny = start_geometry.y.wrapping_add(y.wrapping_sub(start_y));
            &&& fp.drag == op.drag
            &&& placed_floating(o, f, window, nx, ny, None, effects)
        },
        Some(DragState::Resize { window, start_x, start_y, start_geometry, edge }) => {
            let (nx, ny, nw, nh) = spec_calculate_resize(start_geometry, edge, x.wrapping_sub(start_x), y.wrapping_sub(start_y));
            &&& fp.drag == op.drag
            &&& placed_floating(o, f, window, nx, ny, Some((nw, nh)), effects)
        },
        Some(DragState::TiledSwap { window, grab_offset_x, grab_offset_y, original_tree, tiled_geometries, hover_target, workspace }) => {
            let mv = seq![Effect::MoveWindow(window, x.wrapping_sub(grab_offset_x), y.wrapping_sub(grab_offset_y))];
            let hit = first_hit(tiled_geometries@, window, x, y);
            let restore = match hover_target {
                Some(h) => seq![plain_border(o, h)],
                None => Seq::empty(),
            };
            if workspace != o.focused_workspace {
                f == o && fp.drag == op.drag && effects.len() == 0
            } else if hit == hover_target {
                f == o && fp.drag == op.drag && effects =~= mv
            } else {
                match hit {
                    Some(t) => {
                        &&& f.workspaces@ == o.workspaces@.update(fw, Workspace { tree: ws.tree.spec_swap(window, t), ..ws })
                        &&& f.windows@ == o.windows@
                        &&& f == WindowManager { workspaces: f.workspaces, windows: f.windows, ..o }
                        &&& fp.drag matches Some(DragState::TiledSwap {
                            window: w2,
                            grab_offset_x: ox2,
                            grab_offset_y: oy2,
                            original_tree: t2,
                            tiled_geometries: g2,
                            hover_target: h2,
                            workspace: ws2,
                        })
                        &&& w2 == window && ox2 == grab_offset_x && oy2 == grab_offset_y
                        &&& t2 == original_tree && ws2 == workspace && h2 == Some(t)
                        &&& g2@ == f.focused_tiles(o.spec_screen_rect())
                        &&& effects =~= mv + restore + seq![
                            Effect::ApplyLayout,
                            Effect::Raise(window),
                            Effect::SetBorder(t, o.config.border_width, o.config.border_color_swap_target),
                        ]
                    },
                    None => {
                        &&& f == o
                        &&& fp.drag matches Some(DragState::TiledSwap {
                            window: w2,
                            grab_offset_x: ox2,
                            grab_offset_y: oy2,
                            original_tree: t2,
                            tiled_geometries: g2,
                            hover_target: h2,
                            workspace: ws2,
                        })
                        &&& w2 == window && ox2 == grab_offset_x && oy2 == grab_offset_y
                        &&& t2 == original_tree && ws2 == workspace && h2 is None
                        &&& g2@ == tiled_geometries@
                        &&& effects =~= mv + restore
                    },
                }
            }
        },
        Some(DragState::TiledResize { direction, start_pos, start_ratio, window, container_size, workspace }) => {
            let pos = match direction {
                Direction::Left | Direction::Right => x,
                Direction::Up | Direction::Down => y,
            };
            let r = dragged_ratio(start_ratio, pos - start_pos, container_size);
            &&& fp.drag == op.drag
            &&& if workspace != o.focused_workspace {
                f == o && effects.len() == 0
            } else {
                &&& f.workspaces@ == o.workspaces@.update(fw, Workspace {
                    tree: ws.tree.spec_set_split_ratio(window, direction, r).0,
                    ..ws
                })
                &&& f == WindowManager { workspaces: f.workspaces, ..o }
                &&& effects =~= seq![Effect::ApplyLayout]
            }
        },
    }
}

/// State `f` is `o` with the floating geometry of `window` moved to
/// `(x, y)` (and resized to `size` when given), and the window configured
/// there; nothing happens to a window not managed.
pub open spec fn placed_floating(o: WindowManager, f: WindowManager, window: XWindow, x: i16, y: i16, size: Option<(u16, u16)>, effects: Seq<Effect>) -> bool {
    if o.windows@.contains_key(window) {
        let w = o.windows@[window];
        let g = w.floating_geometry;
        let (nw, nh) = match size {
            Some(s) => s,
            None => (g.width, g.height),
        };
        &&& f.windows@ == o.windows@.insert(window, Window { floating_geometry: Rect { x, y, width: nw, height: nh }, ..w })
        &&& f == WindowManager { windows: f.windows, ..o }
        &&& effects =~= seq![Effect::ConfigureWindow(window, x, y, nw, nh, o.config.border_width)]
    } else {
        f == o && effects.len() == 0
    }
}

fn same_edge_cursor(a: Option<(XWindow, ResizeEdge)>, b: Option<(XWindow, ResizeEdge)>) -> (r: bool)
    ensures
        r == (a == b),
{
    match (a, b) {
        (Some((w1, e1)), Some((w2, e2))) => w1 == w2 && e1 == e2,
        (None, None) => true,
        _ => false,
    }
}

fn same_border(a: Option<(XWindow, XWindow, Direction)>, b: Option<(XWindow, XWindow, Direction)>) -> (r: bool)
    ensures
        r == (a == b),
{
    match (a, b) {
        (Some((a1, b1, d1)), Some((a2, b2, d2))) => a1 == a2 && b1 == b2 && d1 == d2,
        (None, None) => true,
        _ => false,
    }
}

fn first_hit_of(g: &Vec<(XWindow, Rect)>, dragged: XWindow, x: i16, y: i16) -> (r: Option<XWindow>)
    ensures
        r == first_hit(g@, dragged, x, y),
{
    let mut i: usize = 0;
    assert(g@.subrange(0, g@.len() as int) =~= g@);
    while i < g.len()
        invariant
            i <= g@.len(),
            first_hit(g@, dragged, x, y) == first_hit(g@.subrange(i as int, g@.len() as int), dragged, x, y),
        decreases g@.len() - i,
    {
        let ghost rest = g@.subrange(i as int, g@.len() as int);
        assert(rest[0] == g@[i as int]);
        assert(rest.drop_first() =~= g@.subrange(i + 1, g@.len() as int));
        let (w, r) = g[i];
        let rw: i32 = if r.width < 32768 { r.width as i32 } else { r.width as i32 - 65536 };
        let rh: i32 = if r.height < 32768 { r.height as i32 } else { r.height as i32 - 65536 };
        let px = x as i32;
        let py = y as i32;
        if w != dragged && px >= r.x as i32 && px < r.x as i32 + rw && py >= r.y as i32 && py < r.y as i32 + rh {
            return Some(w);
        }
        i = i + 1;
    }
    assert(g@.subrange(i as int, g@.len() as int) =~= Seq::<(XWindow, Rect)>::empty());
    None
}

fn dragged_ratio_of(start: u32, delta: i32, container: u16) -> (r: u32)
    requires
        -70000 <= delta <= 70000,
    ensures
        r == dragged_ratio(start, delta as int, container),
{
    let lo = RATIO_MIN as i64;
    let hi = RATIO_MAX as i64;
    let v: i64 = if container == 0 {
        if delta > 0 {
            hi
        } else if delta < 0 {
            lo
        } else {
            start as i64
        }
    } else {
        let scaled = delta as i64 * 10000;
        let c = container as i64;
        let shift: i64 = if scaled >= 0 { scaled / c } else { -((-scaled) / c) };
        start as i64 + shift
    };
    if v < lo {
        RATIO_MIN
    } else if v > hi {
        RATIO_MAX
    } else {
        v as u32
    }
}

impl WindowManager {
    /// Show or clear the resize cursor of a floating window as the pointer
    /// moves over it (see `edge_cursor_step`).
    pub fn update_edge_cursor(&self, pointer: &mut PointerState, window: XWindow, x: i16, y: i16) -> (effects: Vec<Effect>)
        ensures
            (final(pointer).edge_cursor, effects@) == edge_cursor_step(*self, old(pointer).edge_cursor, window, x, y),
            final(pointer).drag == old(pointer).drag,
            final(pointer).tiled_edge_cursor == old(pointer).tiled_edge_cursor,
    {
        let mut effects: Vec<Effect> = Vec::new();
        let current = pointer.edge_cursor;
        if !self.is_floating(window) {
            match current {
                Some((w, e)) => {
                    if e != ResizeEdge::NoEdge {
                        effects.push(Effect::ClearWindowCursor(w));
                    }
                },
                None => {},
            }
            pointer.edge_cursor = None;
            proof {
                assert(effects@ =~= edge_cursor_step(*self, current, window, x, y).1);
            }
            return effects;
        }
        let g = self.get_floating_geometry(window);
        let edge = determine_resize_edge(&g, x, y);
        if same_edge_cursor(current, Some((window, edge))) {
            return effects;
        }
        if edge != ResizeEdge::NoEdge {
            effects.push(Effect::SetWindowCursor(window, self.cursor_for_edge(edge)));
            pointer.edge_cursor = Some((window, edge));
        } else {
            match current {
                Some((w, e)) => {
                    if e != ResizeEdge::NoEdge {
                        effects.push(Effect::ClearWindowCursor(w));
                    }
                },
                None => {},
            }
            pointer.edge_cursor = Some((window, ResizeEdge::NoEdge));
        }
        proof {
            assert(effects@ =~= edge_cursor_step(*self, current, window, x, y).1);
        }
        effects
    }

    /// Show the border-drag cursor on the two tiles of the border the
    /// pointer is over, and clear it from those it left (see
    /// `tiled_cursor_step`).
    pub fn update_tiled_edge_cursor(&self, pointer: &mut PointerState, frames: &FrameManager, window: XWindow, x: i16, y: i16) -> (effects: Vec<Effect>)
        requires
            self.wf(),
            self.work_area_ok(),
        ensures
            (final(pointer).tiled_edge_cursor, effects@) == tiled_cursor_step(*self, *frames, old(pointer).tiled_edge_cursor, window, x, y),
            final(pointer).drag == old(pointer).drag,
            final(pointer).edge_cursor == old(pointer).edge_cursor,
    {
        let area = self.work_area();
        let fw = self.focused_workspace;
        proof {
            assert(self.workspaces@[fw as int].wf());
            crate::wm::tree_laws::lemma_ratios_in_scale(self.workspaces@[fw as int].tree);
            crate::wm::tree_laws::law_layout_fits(self.workspaces@[fw as int].tree, area, None);
        }
        let g = self.workspaces[fw].tree.calculate_geometries(area);
        proof {
            assert forall|i: int| 0 <= i < g@.len() implies rect_fits(#[trigger] g@[i].1) by {
                assert(crate::wm::tree_laws::rect_within(g@[i].1, area));
            }
        }
        let next = match find_rect(g.as_slice(), window) {
            Some(r) => {
                proof {
                    lemma_first_rect_fits(g@, window);
                }
                self.find_tiled_resize_edge(window, &r, x, y, g.as_slice())
            },
            None => None,
        };
        let current = pointer.tiled_edge_cursor;
        let mut effects: Vec<Effect> = Vec::new();
        if same_border(next, current) {
            return effects;
        }
        match current {
            Some((a, b, _)) => {
                let fa = match frames.frame_for_client(a) { Some(f) => f, None => a };
                let fb = match frames.frame_for_client(b) { Some(f) => f, None => b };
                effects.push(Effect::ClearWindowCursor(fa));
                effects.push(Effect::ClearWindowCursor(fb));
                if fa != a {
                    effects.push(Effect::ClearWindowCursor(a));
                }
                if fb != b {
                    effects.push(Effect::ClearWindowCursor(b));
                }
            },
            None => {},
        }
        let ghost cleared = effects@;
        match next {
            Some((a, b, d)) => {
                let c = match d {
                    Direction::Left | Direction::Right => Cursor::HorizontalDouble,
                    Direction::Up | Direction::Down => Cursor::VerticalDouble,
                };
                let fa = match frames.frame_for_client(a) { Some(f) => f, None => a };
                let fb = match frames.frame_for_client(b) { Some(f) => f, None => b };
                effects.push(Effect::SetWindowCursor(fa, c));
                effects.push(Effect::SetWindowCursor(fb, c));
                effects.push(Effect::SetWindowCursor(a, c));
                effects.push(Effect::SetWindowCursor(b, c));
            },
            None => {},
        }
        pointer.tiled_edge_cursor = next;
        proof {
            let step = tiled_cursor_step(*self, *frames, current, window, x, y);
            assert(step.0 == next);
            assert(effects@ =~= step.1);
        }
        effects
    }

    /// Move the floating geometry of `window` to `(x, y)` and configure it
    /// there; nothing happens to a window not managed.
    pub fn set_floating_position(&mut self, window: XWindow, x: i16, y: i16) -> (effects: Vec<Effect>)
        requires
            old(self).wf(),
        ensures
            final(self).wf(),
            placed_floating(*old(self), *final(self), window, x, y, None, effects@),
    {
        let mut effects: Vec<Effect> = Vec::new();
        let border = self.config.border_width;
        if self.windows.contains_key(&window) {
            let removed = self.windows.remove(&window);
            if let Some(mut win) = removed {
                win.floating_geometry.x = x;
                win.floating_geometry.y = y;
                effects.push(Effect::ConfigureWindow(window, x, y, win.floating_geometry.width, win.floating_geometry.height, border));
                self.windows.insert(window, win);
            }
            proof {
                let w0 = old(self).windows@[window];
                assert(self.windows@ =~= old(self).windows@.insert(window, Window {
                    floating_geometry: Rect { x, y, width: w0.floating_geometry.width, height: w0.floating_geometry.height },
                    ..w0
                }));
            }
        }
        effects
    }

    /// Set the floating geometry of `window` and configure it there;
    /// nothing happens to a window not managed.
    pub fn set_floating_geometry(&mut self, window: XWindow, x: i16, y: i16, w: u16, h: u16) -> (effects: Vec<Effect>)
        requires
            old(self).wf(),
        ensures
            final(self).wf(),
            placed_floating(*old(self), *final(self), window, x, y, Some((w, h)), effects@),
    {
        let mut effects: Vec<Effect> = Vec::new();
        let border = self.config.border_width;
        if self.windows.contains_key(&window) {
            let removed = self.windows.remove(&window);
            if let Some(mut win) = removed {
                win.floating_geometry = Rect::new(x, y, w, h);
                effects.push(Effect::ConfigureWindow(window, x, y, w, h, border));
                self.windows.insert(window, win);
            }
            proof {
                let w0 = old(self).windows@[window];
                assert(self.windows@ =~= old(self).windows@.insert(window, Window {
                    floating_geometry: Rect { x, y, width: w, height: h },
                    ..w0
                }));
            }
        }
        effects
    }
}

proof fn lemma_first_rect_fits(g: Seq<(XWindow, Rect)>, w: XWindow)
    requires
        tiles_fit(g),
    ensures
        first_rect(g, w) matches Some(r) ==> rect_fits(r),
    decreases g.len(),
{
    if g.len() > 0 {
        assert(rect_fits(g[0].1));
        if g[0].0 != w {
            assert forall|i: int| 0 <= i < g.drop_first().len() implies rect_fits(#[trigger] g.drop_first()[i].1) by {
                assert(g.drop_first()[i] == g[i + 1]);
            }
            lemma_first_rect_fits(g.drop_first(), w);
        }
    }
}


/// What the pointer moving to `(x, y)` over `event_window` does (a frame
/// standing for its client): during a drag, the drag's step (see
/// `drag_moved`); otherwise the resize cursor of a floating window or the
/// border cursor of a tile is updated, and moving off the managed windows
/// clears the border cursor.
pub open spec fn pointer_moved(o: WindowManager, f: WindowManager, frames: FrameManager, op: PointerState, fp: PointerState, event_window: XWindow, x: i16, y: i16, effects: Seq<Effect>) -> bool {
    let window = if frames.clients().contains_key(event_window) { frames.clients()[event_window] } else { event_window };
    if op.drag is Some {
        drag_moved(o, f, op, fp, x, y, effects)
    } else {
        &&& f == o
        &&& fp.drag == op.drag
        &&& if o.windows@.contains_key(window) {
            if window_floats(o, window) {
                (fp.edge_cursor, effects) == edge_cursor_step(o, op.edge_cursor, window, x, y)
                    && fp.tiled_edge_cursor == op.tiled_edge_cursor
            } else {
                (fp.tiled_edge_cursor, effects) == tiled_cursor_step(o, frames, op.tiled_edge_cursor, window, x, y)
                    && fp.edge_cursor == op.edge_cursor
            }
        } else {
            &&& fp.edge_cursor == op.edge_cursor
            &&& match op.tiled_edge_cursor {
                Some((a, b, _)) => fp.tiled_edge_cursor is None
                    && effects =~= seq![Effect::ClearWindowCursor(a), Effect::ClearWindowCursor(b)],
                None => fp.tiled_edge_cursor is None && effects.len() == 0,
            }
        }
    }
}

fn same_target(a: Option<XWindow>, b: Option<XWindow>) -> (r: bool)
    ensures
        r == (a == b),
{
    match (a, b) {
        (Some(x), Some(y)) => x == y,
        (None, None) => true,
        _ => false,
    }
}

impl WindowManager {
    fn plain_border_of(&self, w: XWindow) -> (e: Effect)
        ensures
            e == plain_border(*self, w),
    {
        let color = if self.focused_window == Some(w) {
            self.config.border_color_focused
        } else {
            self.config.border_color_unfocused
        };
        Effect::SetBorder(w, self.config.border_width, color)
    }

    /// One step of the drag under way as the pointer moves to `(x, y)`
    /// (see `drag_moved`).
    pub fn drag_motion(&mut self, pointer: &mut PointerState, x: i16, y: i16) -> (effects: Vec<Effect>)
        requires
            old(self).wf(),
            old(pointer).wf(),
        ensures
            final(self).wf(),
            final(pointer).wf(),
            drag_moved(*old(self), *final(self), *old(pointer), *final(pointer), x, y, effects@),
    {
        let drag = pointer.drag.take();
        match drag {
            None => Vec::new(),
            Some(DragState::Move { window, start_x, start_y, start_geometry }) => {
                let nx = start_geometry.x.wrapping_add(x.wrapping_sub(start_x));
                let ny = start_geometry.y.wrapping_add(y.wrapping_sub(start_y));
                pointer.drag = Some(DragState::Move { window, start_x, start_y, start_geometry });
                self.set_floating_position(window, nx, ny)
            },
            Some(DragState::Resize { window, start_x, start_y, start_geometry, edge }) => {
                let (nx, ny, nw, nh) = calculate_resize(&start_geometry, edge, x.wrapping_sub(start_x), y.wrapping_sub(start_y));
                pointer.drag = Some(DragState::Resize { window, start_x, start_y, start_geometry, edge });
                self.set_floating_geometry(window, nx, ny, nw, nh)
            },
            Some(DragState::TiledSwap { window, grab_offset_x, grab_offset_y, original_tree, tiled_geometries, hover_target, workspace }) => {
                let mut effects: Vec<Effect> = Vec::new();
                if workspace != self.focused_workspace {
                    pointer.drag = Some(DragState::TiledSwap { window, grab_offset_x, grab_offset_y, original_tree, tiled_geometries, hover_target, workspace });
                    return effects;
                }
                effects.push(Effect::MoveWindow(window, x.wrapping_sub(grab_offset_x), y.wrapping_sub(grab_offset_y)));
                let hit = first_hit_of(&tiled_geometries, window, x, y);
                if same_target(hit, hover_target) {
                    pointer.drag = Some(DragState::TiledSwap { window, grab_offset_x, grab_offset_y, original_tree, tiled_geometries, hover_target, workspace });
                    return effects;
                }
                match hover_target {
                    Some(h) => {
                        effects.push(self.plain_border_of(h));
                    },
                    None => {},
                }
                match hit {
                    Some(t) => {
                        let fw = self.focused_workspace;
                        let ghost pre = self.workspaces@;
                        proof {
                            law_swap(pre[fw as int].tree, window, t, self.spec_screen_rect());
                        }
                        self.workspaces[fw].tree.swap(window, t);
                        proof {
                            assert forall|j: int| 0 <= j < self.workspaces@.len() implies (#[trigger] self.workspaces@[j]).wf() by {
                                if j != fw {
                                    assert(self.workspaces@[j] == pre[j]);
                                }
                            }
                            assert(self.workspaces@ =~= pre.update(fw as int, Workspace {
                                tree: pre[fw as int].tree.spec_swap(window, t),
                                ..pre[fw as int]
                            }));
                        }
                        effects.push(Effect::ApplyLayout);
                        effects.push(Effect::Raise(window));
                        effects.push(Effect::SetBorder(t, self.config.border_width, self.config.border_color_swap_target));
                        let screen = self.screen_rect();
                        proof {
                            assert(self.workspaces@[fw as int].wf());
                            crate::wm::tree_laws::lemma_ratios_in_scale(self.workspaces@[fw as int].tree);
                            crate::wm::tree_laws::law_layout_fits(self.workspaces@[fw as int].tree, screen, None);
                        }
                        let g = self.workspaces[fw].tree.calculate_geometries(screen);
                        pointer.drag = Some(DragState::TiledSwap {
                            window,
                            grab_offset_x,
                            grab_offset_y,
                            original_tree,
                            tiled_geometries: g,
                            hover_target: Some(t),
                            workspace,
                        });
                    },
                    None => {
                        pointer.drag = Some(DragState::TiledSwap {
                            window,
                            grab_offset_x,
                            grab_offset_y,
                            original_tree,
                            tiled_geometries,
                            hover_target: None,
                            workspace,
                        });
                    },
                }
                effects
            },
            Some(DragState::TiledResize { direction, start_pos, start_ratio, window, container_size, workspace }) => {
                pointer.drag = Some(DragState::TiledResize { direction, start_pos, start_ratio, window, container_size, workspace });
                let mut effects: Vec<Effect> = Vec::new();
                if workspace != self.focused_workspace {
                    return effects;
                }
                let pos = match direction {
                    Direction::Left | Direction::Right => x,
                    Direction::Up | Direction::Down => y,
                };
                let r = dragged_ratio_of(start_ratio, pos as i32 - start_pos as i32, container_size);
                let fw = self.focused_workspace;
                let ghost pre = self.workspaces@;
                proof {
                    assert(pre[fw as int].wf());
                    law_set_split_ratio(pre[fw as int].tree, window, direction, r);
                }
                self.workspaces[fw].tree.set_split_ratio(window, direction, r);
                proof {
                    assert forall|j: int| 0 <= j < self.workspaces@.len() implies (#[trigger] self.workspaces@[j]).wf() by {
                        if j != fw {
                            assert(self.workspaces@[j] == pre[j]);
                        }
                    }
                    assert(self.workspaces@ =~= pre.update(fw as int, Workspace {
                        tree: pre[fw as int].tree.spec_set_split_ratio(window, direction, r).0,
                        ..pre[fw as int]
                    }));
                }
                effects.push(Effect::ApplyLayout);
                effects
            },
        }
    }

    /// A motion computes the work area only when no drag is under way and
    /// the pointer is over a managed tile, whose border cursor it updates.
    pub open spec fn motion_uses_work_area(&self, pointer: PointerState, frames: FrameManager, event_window: XWindow) -> bool {
        let window = if frames.clients().contains_key(event_window) { frames.clients()[event_window] } else { event_window };
        &&& pointer.drag is None
        &&& self.windows@.contains_key(window)
        &&& !self.windows@[window].floating
    }

    /// Handle the pointer moving to `(x, y)` over `event_window` (see
    /// `pointer_moved`).
    pub fn handle_motion_notify(&mut self, pointer: &mut PointerState, frames: &FrameManager, event_window: XWindow, x: i16, y: i16) -> (effects: Vec<Effect>)
        requires
            old(self).wf(),
            old(self).motion_uses_work_area(*old(pointer), *frames, event_window) ==> old(self).work_area_ok(),
            old(pointer).wf(),
        ensures
            final(self).wf(),
            final(pointer).wf(),
            pointer_moved(*old(self), *final(self), *frames, *old(pointer), *final(pointer), event_window, x, y, effects@),
    {
        if pointer.drag.is_some() {
            return self.drag_motion(pointer, x, y);
        }
        let window = frames.client_or_self(event_window);
        if self.windows.contains_key(&window) {
            if self.is_floating(window) {
                self.update_edge_cursor(pointer, window, x, y)
            } else {
                self.update_tiled_edge_cursor(pointer, frames, window, x, y)
            }
        } else {
            let mut effects: Vec<Effect> = Vec::new();
            match pointer.tiled_edge_cursor {
                Some((a, b, _)) => {
                    effects.push(Effect::ClearWindowCursor(a));
                    effects.push(Effect::ClearWindowCursor(b));
                },
                None => {},
            }
            pointer.tiled_edge_cursor = None;
            effects
        }
    }
}


/// What releasing the button at `(x, y)` does: it ends the drag under way.
/// A swap drag puts the swap target's border back and, on the workspace it
/// began on, lays out again and focuses the dragged tile; on another
/// workspace it puts back the tree as it was before the drag. A move or
/// resize updates the resize cursor of the window; a border drag shows
/// the plain cursor again and lets frozen pointer events go on.
pub open spec fn released(o: WindowManager, f: WindowManager, op: PointerState, fp: PointerState, x: i16, y: i16, effects: Seq<Effect>) -> bool {
    match op.drag {
        None => f == o && fp == op && effects.len() == 0,
        Some(d) => {
            &&& fp.drag is None
            &&& match d {
                DragState::TiledSwap { window, hover_target, workspace, original_tree, .. } => {
                    let restore = match hover_target {
                        Some(h) => seq![plain_border(o, h)],
                        None => Seq::empty(),
                    };
                    let fw = o.focused_workspace as int;
                    &&& fp.edge_cursor == op.edge_cursor
                    &&& fp.tiled_edge_cursor == op.tiled_edge_cursor
                    &&& if workspace == o.focused_workspace {
                        &&& f.focused_window == Some(window)
                        &&& f.workspaces@ == o.workspaces@.update(fw, Workspace { focused: Some(window), ..o.workspaces@[fw] })
                        &&& f.windows@ == o.windows@
                        &&& f.monitors@ == o.monitors@
                        &&& f == WindowManager {
                            workspaces: f.workspaces,
                            focused_window: f.focused_window,
                            windows: f.windows,
                            monitors: f.monitors,
                            ..o
                        }
                        &&& effects =~= seq![Effect::UngrabPointer] + restore + seq![Effect::ApplyLayout, Effect::Focus(window, true)]
                    } else {
                        &&& f.workspaces@ == o.workspaces@.update(workspace as int, Workspace { tree: original_tree, ..o.workspaces@[workspace as int] })
                        &&& f == WindowManager { workspaces: f.workspaces, ..o }
                        &&& effects =~= seq![Effect::UngrabPointer] + restore
                    }
                },
                DragState::Move { window, .. } | DragState::Resize { window, .. } => {
                    &&& f == o
                    &&& fp.tiled_edge_cursor == op.tiled_edge_cursor
                    &&& if window_floats(o, window) {
                        let (c, e) = edge_cursor_step(o, op.edge_cursor, window, x, y);
                        fp.edge_cursor == c && effects =~= seq![Effect::UngrabPointer] + e
                    } else {
                        fp.edge_cursor == op.edge_cursor && effects =~= seq![Effect::UngrabPointer]
                    }
                },
                DragState::TiledResize { .. } => {
                    &&& f == o
                    &&& fp.edge_cursor == op.edge_cursor
                    &&& fp.tiled_edge_cursor == op.tiled_edge_cursor
                    &&& effects =~= seq![Effect::UngrabPointer, Effect::SetRootCursor(Cursor::Normal), Effect::ReleasePointer]
                },
            }
        },
    }
}

impl WindowManager {
    /// Handle the button's release at `(x, y)` (see `released`).
    pub fn handle_button_release(&mut self, pointer: &mut PointerState, x: i16, y: i16) -> (effects: Vec<Effect>)
        requires
            old(self).wf(),
            old(pointer).wf(),
        ensures
            final(self).wf(),
            final(pointer).wf(),
            released(*old(self), *final(self), *old(pointer), *final(pointer), x, y, effects@),
    {
        let drag = pointer.drag.take();
        let mut effects: Vec<Effect> = Vec::new();
        match drag {
            None => {},
            Some(DragState::TiledSwap { window, hover_target, workspace, original_tree, .. }) => {
                effects.push(Effect::UngrabPointer);
                match hover_target {
                    Some(h) => {
                        effects.push(self.plain_border_of(h));
                    },
                    None => {},
                }
                if workspace == self.focused_workspace {
                    effects.push(Effect::ApplyLayout);
                    let mut e = self.set_focus(window, true);
                    effects.append(&mut e);
                } else {
                    let ghost pre = self.workspaces@;
                    self.workspaces[workspace].tree = original_tree;
                    proof {
                        assert forall|j: int| 0 <= j < self.workspaces@.len() implies (#[trigger] self.workspaces@[j]).wf() by {
                            if j != workspace {
                                assert(self.workspaces@[j] == pre[j]);
                            }
                        }
                        assert(self.workspaces@ =~= pre.update(workspace as int, Workspace { tree: original_tree, ..pre[workspace as int] }));
                    }
                }
            },
            Some(DragState::Move { window, .. }) => {
                effects.push(Effect::UngrabPointer);
                if self.is_floating(window) {
                    let mut e = self.update_edge_cursor(pointer, window, x, y);
                    effects.append(&mut e);
                }
            },
            Some(DragState::Resize { window, .. }) => {
                effects.push(Effect::UngrabPointer);
                if self.is_floating(window) {
                    let mut e = self.update_edge_cursor(pointer, window, x, y);
                    effects.append(&mut e);
                }
            },
            Some(DragState::TiledResize { .. }) => {
                effects.push(Effect::UngrabPointer);
                effects.push(Effect::SetRootCursor(Cursor::Normal));
                effects.push(Effect::ReleasePointer);
            },
        }
        effects
    }
}

} // verus!
