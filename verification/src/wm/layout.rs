//! What laying out the visible workspaces asks of the X server: the
//! geometry of every tiled and floating window, and the border colors.
use vstd::prelude::*;
use crate::wm::manager::{Effect, WindowManager};
use crate::wm::monitor::Monitor;
use crate::wm::tree::{Rect, XWindow};
use crate::wm::window::Window;
use crate::wm::workspace::Workspace;

verus! {

broadcast use vstd::std_specs::hash::group_hash_axioms;

/// One window's configuration: position, size and border width, and
/// whether to raise it above the others afterwards.
#[derive(Debug, Clone, Copy, PartialEq, Eq, Structural)]
pub struct Configure {
    pub window: XWindow,
    pub x: i16,
    pub y: i16,
    pub width: u16,
    pub height: u16,
    pub border_width: u32,
    pub raise: bool,
}

pub open spec fn sat_sub(a: int, b: int) -> int {
    if a >= b { a - b } else { 0 }
}

pub open spec fn at_least_one(v: int) -> int {
    if v >= 1 { v } else { 1 }
}

/// Rust's `/ 2` on an `i16`.
pub open spec fn half_gap(v: i16) -> int {
    if v >= 0 { v / 2 } else { -((-v) / 2) }
}

/// The area a monitor's tiles fill: its geometry less the outer gap.
pub open spec fn work_area(screen: Rect, gap_outer: i16) -> Rect {
    Rect {
        x: (screen.x + gap_outer) as i16,
        y: (screen.y + gap_outer) as i16,
        width: sat_sub(screen.width as int, 2 * (gap_outer as u16)) as u16,
        height: sat_sub(screen.height as int, 2 * (gap_outer as u16)) as u16,
    }
}

/// A tile's configuration: shrunk by half the inner gap on each side and
/// by the border on both sides, at least one pixel wide and high.
pub open spec fn tiled_configure(w: XWindow, r: Rect, gap_inner: i16, border: u32) -> Configure {
    Configure {
        window: w,
        x: (r.x + half_gap(gap_inner)) as i16,
        y: (r.y + half_gap(gap_inner)) as i16,
        width: at_least_one(sat_sub(sat_sub(r.width as int, gap_inner as u16 as int), 2 * (border as u16))) as u16,
        height: at_least_one(sat_sub(sat_sub(r.height as int, gap_inner as u16 as int), 2 * (border as u16))) as u16,
        border_width: border,
        raise: false,
    }
}

/// A floating window's configuration at its floating geometry, less its
/// border on both sides, raised above what came before.
pub open spec fn floating_configure(w: XWindow, g: Rect, border: u32) -> Configure {
    Configure {
        window: w,
        x: g.x,
        y: g.y,
        width: at_least_one(sat_sub(g.width as int, 2 * (border as u16))) as u16,
        height: at_least_one(sat_sub(g.height as int, 2 * (border as u16))) as u16,
        border_width: border,
        raise: true,
    }
}

/// The floating windows of `ids` that are managed, configured in order.
pub open spec fn floating_plan(ids: Seq<XWindow>, windows: Map<XWindow, Window>, border: u32) -> Seq<Configure>
    decreases ids.len(),
{
    if ids.len() == 0 {
        Seq::empty()
    } else {
        let before = floating_plan(ids.drop_last(), windows, border);
        let w = ids.last();
        if windows.contains_key(w) {
            before.push(floating_configure(w, windows[w].floating_geometry, border))
        } else {
            before
        }
    }
}

impl WindowManager {
    pub open spec fn gap_outer16(&self) -> i16 {
        self.config.gap_outer as i16
    }

    pub open spec fn gap_inner16(&self) -> i16 {
        self.config.gap_inner as i16
    }

    /// The work area of monitor `m`.
    pub open spec fn monitor_work_area(&self, m: int) -> Rect {
        work_area(self.monitors@[m].geometry, self.gap_outer16())
    }

    /// The tiles of the workspace monitor `m` shows.
    pub open spec fn monitor_tiles(&self, m: int) -> Seq<(XWindow, Rect)> {
        self.workspaces@[self.monitors@[m].active_workspace as int].tree.spec_geometries(self.monitor_work_area(m))
    }

    /// What monitor `m` shows: its tiles, then its floating windows.
    pub open spec fn monitor_plan(&self, m: int) -> Seq<Configure> {
        self.monitor_tiles(m).map_values(|p: (XWindow, Rect)| tiled_configure(p.0, p.1, self.gap_inner16(), self.config.border_width))
            + floating_plan(
            self.workspaces@[self.monitors@[m].active_workspace as int].floating@,
            self.windows@,
            self.config.border_width,
        )
    }

    /// What the first `k` monitors show, in monitor order.
    pub open spec fn plan_upto(&self, k: int) -> Seq<Configure>
        decreases k,
    {
        if k <= 0 {
            Seq::empty()
        } else {
            self.plan_upto(k - 1) + self.monitor_plan(k - 1)
        }
    }

    /// Every sum the layout forms stays within its type: the outer gap
    /// and the border fit twice in a `u16`, each monitor's work area can be
    /// laid out, and each tile can be moved by half the inner gap.
    pub open spec fn layout_arith_ok(&self) -> bool {
        &&& 2 * (self.gap_outer16() as u16) <= u16::MAX
        &&& 2 * (self.config.border_width as u16) <= u16::MAX
        &&& forall|m: int| 0 <= m < self.monitors@.len() ==> #[trigger] self.monitor_fits(m)
    }
}

fn sat_sub_u16(a: u16, b: u16) -> (r: u16)
    ensures
        r == sat_sub(a as int, b as int),
{
    if a >= b { a - b } else { 0 }
}

fn half_gap_of(v: i16) -> (r: i16)
    ensures
        r == half_gap(v),
{
    if v >= 0 { v / 2 } else { -((-(v as i32)) / 2) as i16 }
}

fn floating_configure_of(w: XWindow, g: Rect, border: u32) -> (c: Configure)
    requires
        2 * (border as u16) <= u16::MAX,
    ensures
        c == floating_configure(w, g, border),
{
    let b2: u16 = 2 * (border as u16);
    let aw = sat_sub_u16(g.width, b2);
    let ah = sat_sub_u16(g.height, b2);
    Configure {
        window: w,
        x: g.x,
        y: g.y,
        width: if aw >= 1 { aw } else { 1 },
        height: if ah >= 1 { ah } else { 1 },
        border_width: border,
        raise: true,
    }
}

impl WindowManager {
    fn push_floating_plan(&self, ids: &Vec<XWindow>, plan: &mut Vec<Configure>)
        requires
            2 * (self.config.border_width as u16) <= u16::MAX,
        ensures
            final(plan)@ == old(plan)@ + floating_plan(ids@, self.windows@, self.config.border_width),
    {
        let ghost p0 = plan@;
        let border = self.config.border_width;
        let mut i: usize = 0;
        proof {
            assert(ids@.subrange(0, 0) =~= Seq::<XWindow>::empty());
            assert(p0 + Seq::<Configure>::empty() =~= p0);
        }
        while i < ids.len()
            invariant
                i <= ids@.len(),
                border == self.config.border_width,
                2 * (border as u16) <= u16::MAX,
                plan@ == p0 + floating_plan(ids@.subrange(0, i as int), self.windows@, border),
            decreases ids@.len() - i,
        {
            let w = ids[i];
            let ghost q = ids@.subrange(0, i + 1);
            assert(q.drop_last() =~= ids@.subrange(0, i as int));
            assert(q.last() == w);
            match self.windows.get(&w) {
                Some(win) => {
                    let c = floating_configure_of(w, win.floating_geometry, border);
                    plan.push(c);
                    assert(plan@ =~= p0 + floating_plan(q, self.windows@, border));
                },
                None => {},
            }
            i = i + 1;
        }
        assert(ids@.subrange(0, ids@.len() as int) =~= ids@);
    }

    fn monitor_plan_of(&self, m: usize, plan: &mut Vec<Configure>)
        requires
            self.wf(),
            self.layout_arith_ok(),
            m < self.monitors@.len(),
        ensures
            final(plan)@ == old(plan)@ + self.monitor_plan(m as int),
    {
        let ghost p0 = plan@;
        assert(self.monitor_fits(m as int));
        let go = self.config.gap_outer as i16;
        let gi = self.config.gap_inner as i16;
        let border = self.config.border_width;
        let screen = self.monitors[m].geometry;
        let g2: u16 = 2 * (go as u16);
        let area = Rect::new(screen.x + go, screen.y + go, sat_sub_u16(screen.width, g2), sat_sub_u16(screen.height, g2));
        assert(area == self.monitor_work_area(m as int));
        let ws = self.monitors[m].active_workspace;
        let tiles = self.workspaces[ws].tree.calculate_geometries(area);
        let hg = half_gap_of(gi);
        let b2: u16 = 2 * (border as u16);
        let gu = gi as u16;
        let ghost f = |p: (XWindow, Rect)| tiled_configure(p.0, p.1, gi, border);
        let mut i: usize = 0;
        proof {
            assert(tiles@.subrange(0, 0).map_values(f) =~= Seq::<Configure>::empty());
            assert(p0 + Seq::<Configure>::empty() =~= p0);
        }
        while i < tiles.len()
            invariant
                i <= tiles@.len(),
                tiles@ == self.monitor_tiles(m as int),
                m < self.monitors@.len(),
                self.layout_arith_ok(),
                self.monitor_fits(m as int),
                hg == half_gap(gi),
                gi == self.gap_inner16(),
                gu == gi as u16,
                border == self.config.border_width,
                b2 == 2 * (border as u16),
                f == (|p: (XWindow, Rect)| tiled_configure(p.0, p.1, gi, border)),
                plan@ == p0 + tiles@.subrange(0, i as int).map_values(f),
            decreases tiles@.len() - i,
        {
            let (w, r) = tiles[i];
            assert(i16::MIN <= self.monitor_tiles(m as int)[i as int].1.x + half_gap(self.gap_inner16()) <= i16::MAX);
            let gw = sat_sub_u16(r.width, gu);
            let gh = sat_sub_u16(r.height, gu);
            let fw = sat_sub_u16(gw, b2);
            let fh = sat_sub_u16(gh, b2);
            let c = Configure {
                window: w,
                x: r.x + hg,
                y: r.y + hg,
                width: if fw >= 1 { fw } else { 1 },
                height: if fh >= 1 { fh } else { 1 },
                border_width: border,
                raise: false,
            };
            assert(c == tiled_configure(w, r, gi, border));
            plan.push(c);
            assert(tiles@.subrange(0, i + 1).map_values(f) =~= tiles@.subrange(0, i as int).map_values(f).push(c));
            i = i + 1;
        }
        assert(tiles@.subrange(0, tiles@.len() as int) =~= tiles@);
        self.push_floating_plan(&self.workspaces[ws].floating, plan);
        assert(plan@ =~= p0 + self.monitor_plan(m as int));
    }

    /// Whether the layout's sums all stay within their types (see
    /// `layout_arith_ok`).
    pub fn layout_fits(&self) -> (b: bool)
        requires
            self.wf(),
        ensures
            b == self.layout_arith_ok(),
    {
        let go = self.config.gap_outer as i16;
        let gi = self.config.gap_inner as i16;
        if 2 * (go as u16) as u32 > 65535 || 2 * (self.config.border_width as u16) as u32 > 65535 {
            return false;
        }
        let hg = half_gap_of(gi) as i32;
        let mut m: usize = 0;
        while m < self.monitors.len()
            invariant
                self.wf(),
                m <= self.monitors@.len(),
                go == self.gap_outer16(),
                gi == self.gap_inner16(),
                hg == half_gap(gi),
                2 * (self.gap_outer16() as u16) <= u16::MAX,
                2 * (self.config.border_width as u16) <= u16::MAX,
                forall|k: int| 0 <= k < m ==> #[trigger] self.monitor_fits(k),
            decreases self.monitors@.len() - m,
        {
            let screen = self.monitors[m].geometry;
            let x = screen.x as i32 + go as i32;
            let y = screen.y as i32 + go as i32;
            if x < -32768 || x > 32767 || y < -32768 || y > 32767 {
                assert(!self.monitor_fits(m as int));
                return false;
            }
            let g2: u16 = 2 * (go as u16);
            let area = Rect::new(screen.x + go, screen.y + go, sat_sub_u16(screen.width, g2), sat_sub_u16(screen.height, g2));
            assert(area == self.monitor_work_area(m as int));
            let ws = self.monitors[m].active_workspace;
            if !self.workspaces[ws].tree.layout_fits(area) {
                assert(!self.monitor_fits(m as int));
                return false;
            }
            let tiles = self.workspaces[ws].tree.calculate_geometries(area);
            let mut i: usize = 0;
            while i < tiles.len()
                invariant
                    i <= tiles@.len(),
                    m < self.monitors@.len(),
                    tiles@ == self.monitor_tiles(m as int),
                    hg == half_gap(self.gap_inner16()),
                    forall|j: int| 0 <= j < i ==> {
                        &&& i16::MIN <= #[trigger] self.monitor_tiles(m as int)[j].1.x + half_gap(self.gap_inner16()) <= i16::MAX
                        &&& i16::MIN <= self.monitor_tiles(m as int)[j].1.y + half_gap(self.gap_inner16()) <= i16::MAX
                    },
                decreases tiles@.len() - i,
            {
                let r = tiles[i].1;
                let tx = r.x as i32 + hg;
                let ty = r.y as i32 + hg;
                if tx < -32768 || tx > 32767 || ty < -32768 || ty > 32767 {
                    assert(!self.monitor_fits(m as int));
                    return false;
                }
                i = i + 1;
            }
            assert(self.monitor_fits(m as int));
            m = m + 1;
        }
        true
    }

    /// Monitor `m`'s part of `layout_arith_ok`.
    pub open spec fn monitor_fits(&self, m: int) -> bool {
        &&& i16::MIN <= self.monitors@[m].geometry.x + self.gap_outer16() <= i16::MAX
        &&& i16::MIN <= self.monitors@[m].geometry.y + self.gap_outer16() <= i16::MAX
        &&& self.workspaces@[self.monitors@[m].active_workspace as int].tree.layout_ok(self.monitor_work_area(m))
        &&& forall|i: int| 0 <= i < self.monitor_tiles(m).len() ==> {
            &&& i16::MIN <= #[trigger] self.monitor_tiles(m)[i].1.x + half_gap(self.gap_inner16()) <= i16::MAX
            &&& i16::MIN <= self.monitor_tiles(m)[i].1.y + half_gap(self.gap_inner16()) <= i16::MAX
        }
    }

    /// How to configure every window the monitors show, monitor by monitor:
    /// each tile of its workspace, then each of its managed floating
    /// windows, raised in stacking order.
    pub fn layout_plan(&self) -> (plan: Vec<Configure>)
        requires
            self.wf(),
            self.layout_arith_ok(),
        ensures
            plan@ == self.plan_upto(self.monitors@.len() as int),
    {
        let mut plan: Vec<Configure> = Vec::new();
        let mut m: usize = 0;
        while m < self.monitors.len()
            invariant
                self.wf(),
                self.layout_arith_ok(),
                m <= self.monitors@.len(),
                plan@ == self.plan_upto(m as int),
            decreases self.monitors@.len() - m,
        {
            self.monitor_plan_of(m, &mut plan);
            m = m + 1;
        }
        plan
    }
}

/// The border color of a window: the focused color for the focused window.
pub open spec fn border_color(w: XWindow, focused: Option<XWindow>, focused_color: u32, unfocused_color: u32) -> u32 {
    if focused == Some(w) { focused_color } else { unfocused_color }
}

impl WindowManager {
    /// The borders of the first `k` monitors' windows.
    pub open spec fn borders_upto(&self, k: int) -> Seq<(XWindow, u32)>
        decreases k,
    {
        if k <= 0 {
            Seq::empty()
        } else {
            self.borders_upto(k - 1) + self.workspaces@[self.monitors@[k - 1].active_workspace as int].window_seq().map_values(
                |w: XWindow| (w, border_color(w, self.focused_window, self.config.border_color_focused, self.config.border_color_unfocused)),
            )
        }
    }

    /// The border color of every window the monitors show, monitor by
    /// monitor, tiled windows then floating ones; all get the configured
    /// border width.
    pub fn border_plan(&self) -> (plan: Vec<(XWindow, u32)>)
        requires
            self.wf(),
        ensures
            plan@ == self.borders_upto(self.monitors@.len() as int),
    {
        let focused = self.focused_window;
        let fc = self.config.border_color_focused;
        let uc = self.config.border_color_unfocused;
        let mut plan: Vec<(XWindow, u32)> = Vec::new();
        let mut m: usize = 0;
        while m < self.monitors.len()
            invariant
                self.wf(),
                m <= self.monitors@.len(),
                focused == self.focused_window,
                fc == self.config.border_color_focused,
                uc == self.config.border_color_unfocused,
                plan@ == self.borders_upto(m as int),
            decreases self.monitors@.len() - m,
        {
            let ws = self.monitors[m].active_workspace;
            let all = self.workspaces[ws].all_windows();
            let ghost p0 = plan@;
            let ghost g = |w: XWindow| (w, border_color(w, focused, fc, uc));
            let mut i: usize = 0;
            proof {
                assert(all@.subrange(0, 0).map_values(g) =~= Seq::<(XWindow, u32)>::empty());
                assert(p0 + Seq::<(XWindow, u32)>::empty() =~= p0);
            }
            while i < all.len()
                invariant
                    i <= all@.len(),
                    focused == self.focused_window,
                    fc == self.config.border_color_focused,
                    uc == self.config.border_color_unfocused,
                    g == (|w: XWindow| (w, border_color(w, focused, fc, uc))),
                    plan@ == p0 + all@.subrange(0, i as int).map_values(g),
                decreases all@.len() - i,
            {
                let w = all[i];
                let color = if focused == Some(w) { fc } else { uc };
                plan.push((w, color));
                assert(all@.subrange(0, i + 1).map_values(g) =~= all@.subrange(0, i as int).map_values(g).push((w, color)));
                i = i + 1;
            }
            assert(all@.subrange(0, all@.len() as int) =~= all@);
            m = m + 1;
        }
        plan
    }
}


/// Every tile of a monitor is configured inside its cell of the layout,
/// half the inner gap in from the cell's top and left edges and, with its
/// borders, the whole gap narrower and lower than the cell, so that
/// neighbouring tiles stand `gap_inner` pixels apart; a cell too small for
/// that still gives a window at least one pixel wide and high.
pub proof fn law_tiles_keep_the_gap(wm: WindowManager, m: int, i: int)
    requires
        wm.layout_arith_ok(),
        0 <= m < wm.monitors@.len(),
        0 <= i < wm.monitor_tiles(m).len(),
        wm.config.gap_inner <= 32767,
        wm.config.border_width <= 32767,
    ensures
        ({
            let (w, r) = wm.monitor_tiles(m)[i];
            let c = wm.monitor_plan(m)[i];
            let gap = wm.config.gap_inner as int;
            let b = wm.config.border_width as int;
            &&& c.window == w
            &&& c.x == r.x + gap / 2
            &&& c.y == r.y + gap / 2
            &&& c.width >= 1
            &&& c.height >= 1
            &&& r.width >= gap + 2 * b + 1 ==> c.width == r.width - gap - 2 * b
            &&& r.height >= gap + 2 * b + 1 ==> c.height == r.height - gap - 2 * b
            &&& c.border_width == b
            &&& !c.raise
        }),
{
    assert(wm.monitor_fits(m));
    let tiles = wm.monitor_tiles(m);
    let f = |p: (XWindow, Rect)| tiled_configure(p.0, p.1, wm.gap_inner16(), wm.config.border_width);
    assert(wm.monitor_plan(m)[i] == tiles.map_values(f)[i]);
    assert(i16::MIN <= tiles[i].1.x + half_gap(wm.gap_inner16()) <= i16::MAX);
    assert(wm.gap_inner16() as int == wm.config.gap_inner as int);
}

} // verus!
