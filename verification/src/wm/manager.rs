//! The state of the window manager and the decisions it takes on it. Each
//! operation changes the state and returns the effects the X server must
//! see, in order, for the program around it to carry out.
use vstd::prelude::*;
use std::collections::HashMap;
use crate::config::Config;
use crate::wm::monitor::Monitor;
use crate::wm::tree::{rect_fits, Node, Rect, XWindow};
use crate::wm::tree_laws::{law_insert_keeps_wf, law_layout_fits, lemma_ratios_in_scale, law_remove_keeps_wf};
use crate::wm::workspace::without;
use crate::wm::window::Window;
use crate::wm::workspace::Workspace;
use crate::wm::drag::Cursor;

verus! {

broadcast use vstd::std_specs::hash::group_hash_axioms;

/// Number of workspaces.
pub const WORKSPACE_COUNT: usize = 10;

/// Something the X server must be told, in the order given.
#[derive(Debug)]
pub enum Effect {
    /// Map the window and its frame.
    MapWindow(XWindow),
    /// Unmap the window and its frame (its unmap notification is expected).
    UnmapWindow(XWindow),
    /// Set `_NET_CURRENT_DESKTOP`.
    SetCurrentDesktop(u32),
    /// Set `_NET_WM_DESKTOP` of a window.
    SetWindowDesktop(XWindow, u32),
    /// Give a window the input focus, make it the active window and redraw
    /// the borders; warp the pointer to it when the flag is set.
    Focus(XWindow, bool),
    /// Clear `_NET_ACTIVE_WINDOW`.
    ClearActiveWindow,
    /// Move the pointer to a point of the root window.
    WarpPointer(i16, i16),
    /// Lay out every visible workspace again.
    ApplyLayout,
    /// Raise a window (its frame if it has one) to the top of the stack.
    Raise(XWindow),
    /// Listen to a managed window's events: pointer entry and motion,
    /// focus, property and structure changes.
    SelectInput(XWindow),
    /// Tell i3 IPC subscribers that the focused workspace changed, with the
    /// indices of the new and the old workspace.
    WorkspaceEvent(usize, Option<usize>),
    /// Run a shell command.
    Spawn(String),
    /// Ask a window to close, killing its client if it cannot be asked.
    Close(XWindow),
    /// Kill a window's client.
    ForceClose(XWindow),
    ToggleFullscreen(XWindow),
    /// Read the configuration again.
    Reload,
    /// Run a callback the configuration registered.
    RunCallback(usize),
    /// Let the window show its parent's cursor again.
    ClearWindowCursor(XWindow),
    /// Show a cursor over the window.
    SetWindowCursor(XWindow, Cursor),
    /// Show a cursor over the root window.
    SetRootCursor(Cursor),
    /// Grab the pointer for a drag, showing the cursor.
    GrabPointer(Cursor),
    UngrabPointer,
    /// Let the press the button grab holds go on to the window under the pointer.
    ReplayPointer,
    /// Let pointer events frozen by a grab go on.
    ReleasePointer,
    /// Grab the first button on the window, for click to focus.
    GrabButton(XWindow),
    /// Let presses on the window go straight to its client.
    UngrabButton(XWindow),
    /// Move the window (not its stacking or size) to the point.
    MoveWindow(XWindow, i16, i16),
    /// Place and size the window, with the border width.
    ConfigureWindow(XWindow, i16, i16, u16, u16, u32),
    /// Set the window's border width and color.
    SetBorder(XWindow, u32, u32),
    /// Make the window fullscreen (true) or bring it back (false).
    SetFullscreen(XWindow, bool),
    /// Clear the whole root window of leftover pixels.
    ClearRoot,
    /// Redraw the borders of the visible windows.
    UpdateBorders,
}

pub struct WindowManager {
    pub config: Config,
    pub workspaces: Vec<Workspace>,
    pub monitors: Vec<Monitor>,
    pub windows: HashMap<XWindow, Window>,
    pub focused_workspace: usize,
    pub focused_window: Option<XWindow>,
    pub focused_monitor: usize,
    pub running: bool,
    /// The root window, never managed.
    pub root: XWindow,
    pub screen_width: u16,
    pub screen_height: u16,
}

/// The name of workspace `i` (counted from 1): its number in decimal.
pub open spec fn workspace_name(i: int) -> Seq<char> {
    if i == 1 { "1"@ }
    else if i == 2 { "2"@ }
    else if i == 3 { "3"@ }
    else if i == 4 { "4"@ }
    else if i == 5 { "5"@ }
    else if i == 6 { "6"@ }
    else if i == 7 { "7"@ }
    else if i == 8 { "8"@ }
    else if i == 9 { "9"@ }
    else { "10"@ }
}

fn workspace_name_of(i: usize) -> (s: String)
    requires
        1 <= i <= WORKSPACE_COUNT,
    ensures
        s@ == workspace_name(i as int),
{
    if i == 1 { String::from_str("1") }
    else if i == 2 { String::from_str("2") }
    else if i == 3 { String::from_str("3") }
    else if i == 4 { String::from_str("4") }
    else if i == 5 { String::from_str("5") }
    else if i == 6 { String::from_str("6") }
    else if i == 7 { String::from_str("7") }
    else if i == 8 { String::from_str("8") }
    else if i == 9 { String::from_str("9") }
    else { String::from_str("10") }
}

/// The first workspace index monitor `i` of `m` gets out of `n`.
pub open spec fn range_start(i: int, n: int, m: int) -> int {
    i * n / m
}

/// The workspaces `start..end`.
pub open spec fn index_range(start: int, end: int) -> Seq<usize> {
    Seq::new((end - start) as nat, |k: int| (start + k) as usize)
}

/// Monitor `i` of `m` holds its share of the `n` workspaces, shows the
/// first of them.
pub open spec fn assigned(mon: Monitor, i: int, n: int, m: int) -> bool {
    &&& mon.workspaces@ == index_range(range_start(i, n, m), range_start(i + 1, n, m))
    &&& mon.active_workspace == range_start(i, n, m)
}

/// The monitors with their names, outputs, geometries and primary flags,
/// but their workspaces handed out anew.
pub open spec fn same_outputs(a: Seq<Monitor>, b: Seq<Monitor>) -> bool {
    &&& a.len() == b.len()
    &&& forall|i: int| #![trigger a[i]] #![trigger b[i]] 0 <= i < a.len() ==> {
        &&& a[i].name == b[i].name
        &&& a[i].output == b[i].output
        &&& a[i].geometry == b[i].geometry
        &&& a[i].primary == b[i].primary
    }
}

pub proof fn lemma_range_start_bounds(i: int, n: int, m: int)
    requires
        0 <= i < m,
        0 <= n,
    ensures
        0 <= range_start(i, n, m) <= range_start(i + 1, n, m) <= n,
        n > 0 ==> range_start(i, n, m) < n,
{
    if n > 0 {
        assert(i * n <= m * n - n) by (nonlinear_arith)
            requires
                i + 1 <= m,
                0 <= n,
        ;
        assert(i * n / m <= (m * n - n) / m) by (nonlinear_arith)
            requires
                0 <= i * n <= m * n - n,
                0 < m,
        ;
        assert((m * n - n) / m < n) by (nonlinear_arith)
            requires
                0 < m,
                0 < n,
        ;
    }
    assert(0 <= i * n) by (nonlinear_arith)
        requires
            0 <= i,
            0 <= n,
    ;
    assert(i * n <= (i + 1) * n) by (nonlinear_arith)
        requires
            0 <= n,
    ;
    assert((i + 1) * n <= m * n) by (nonlinear_arith)
        requires
            i + 1 <= m,
            0 <= n,
    ;
    assert(0 <= i * n / m) by (nonlinear_arith)
        requires
            0 <= i * n,
            0 < m,
    ;
    assert(i * n / m <= (i + 1) * n / m) by (nonlinear_arith)
        requires
            i * n <= (i + 1) * n,
            0 < m,
    ;
    assert((i + 1) * n / m <= m * n / m) by (nonlinear_arith)
        requires
            (i + 1) * n <= m * n,
            0 < m,
    ;
    assert(m * n / m == n) by (nonlinear_arith)
        requires
            0 < m,
    ;
}

/// Hand the `n` workspaces out to the monitors in order, each its share.
pub fn assign_workspaces(monitors: &mut Vec<Monitor>, n: usize)
    requires
        old(monitors)@.len() * n <= usize::MAX,
        old(monitors)@.len() > 0,
    ensures
        same_outputs(old(monitors)@, final(monitors)@),
        forall|i: int|
            0 <= i < final(monitors)@.len() ==> assigned(
                #[trigger] final(monitors)@[i],
                i,
                n as int,
                final(monitors)@.len() as int,
            ),
{
    let m = monitors.len();
    let mut i: usize = 0;
    while i < m
        invariant
            m == monitors@.len(),
            m == old(monitors)@.len(),
            m * n <= usize::MAX,
            i <= m,
            same_outputs(old(monitors)@, monitors@),
            forall|j: int| 0 <= j < i ==> assigned(#[trigger] monitors@[j], j, n as int, m as int),
        decreases m - i,
    {
        assert(i * n <= m * n && (i + 1) * n <= m * n) by (nonlinear_arith)
            requires
                i < m,
        ;
        proof {
            lemma_range_start_bounds(i as int, n as int, m as int);
        }
        let start = i * n / m;
        let end = (i + 1) * n / m;
        let mut ids: Vec<usize> = Vec::new();
        let mut k = start;
        while k < end
            invariant
                start <= k <= end,
                ids@ == index_range(start as int, k as int),
            decreases end - k,
        {
            ids.push(k);
            assert(ids@ =~= index_range(start as int, k + 1));
            k = k + 1;
        }
        let ghost pre = monitors@;
        monitors[i].workspaces = ids;
        monitors[i].active_workspace = start;
        proof {
            assert forall|j: int| 0 <= j < m implies #[trigger] monitors@[j].name == pre[j].name
                && monitors@[j].output == pre[j].output && monitors@[j].geometry == pre[j].geometry
                && monitors@[j].primary == pre[j].primary by {
                if j != i {
                    assert(monitors@[j] == pre[j]);
                }
            }
            assert forall|j: int| 0 <= j < i + 1 implies assigned(#[trigger] monitors@[j], j, n as int, m as int) by {
                if j < i {
                    assert(monitors@[j] == pre[j]);
                }
            }
        }
        i = i + 1;
    }
}

/// The window a workspace gives the focus to when it gets it: the one it
/// last focused, else the top floating window, else its first tiled one.
pub open spec fn focus_candidate(ws: Workspace) -> Option<XWindow> {
    if ws.focused is Some {
        ws.focused
    } else if ws.floating@.len() > 0 {
        Some(ws.floating@.last())
    } else if ws.tree.window_seq().len() > 0 {
        Some(ws.tree.window_seq()[0])
    } else {
        None
    }
}

/// The index of the first monitor showing workspace `idx`, if one does.
pub open spec fn showing_monitor(monitors: Seq<Monitor>, idx: usize) -> Option<int> {
    if exists|i: int| 0 <= i < monitors.len() && #[trigger] monitors[i].active_workspace == idx {
        Some(choose|i: int| 0 <= i < monitors.len() && #[trigger] monitors[i].active_workspace == idx
            && forall|j: int| 0 <= j < i ==> #[trigger] monitors[j].active_workspace != idx)
    } else {
        None
    }
}

impl WindowManager {
    /// The invariant: the ten workspaces, some monitors, the focus indices and
    /// every monitor's workspace in range, well-formed workspaces, every
    /// managed window on an existing workspace, and geometries that stay
    /// inside the coordinate space.
    pub open spec fn wf(&self) -> bool {
        &&& self.workspaces@.len() == WORKSPACE_COUNT
        &&& self.monitors@.len() > 0
        &&& self.focused_workspace < self.workspaces@.len()
        &&& self.focused_monitor < self.monitors@.len()
        &&& forall|i: int| 0 <= i < self.monitors@.len() ==> #[trigger] self.monitors@[i].active_workspace < self.workspaces@.len()
        &&& forall|i: int| 0 <= i < self.monitors@.len() ==> rect_fits(#[trigger] self.monitors@[i].geometry)
        &&& forall|i: int, k: int| 0 <= i < self.monitors@.len() && 0 <= k < self.monitors@[i].workspaces@.len()
            ==> #[trigger] self.monitors@[i].workspaces@[k] < self.workspaces@.len()
        &&& forall|i: int| 0 <= i < self.workspaces@.len() ==> (#[trigger] self.workspaces@[i]).wf()
        &&& forall|w: XWindow| #[trigger] self.windows@.contains_key(w) ==> self.windows@[w].workspace < self.workspaces@.len()
        &&& self.screen_width <= 32767
        &&& self.screen_height <= 32767
    }

    /// The window manager with its workspaces handed out to `monitors`
    /// (one of the whole screen when none was detected), nothing managed,
    /// the first workspace and monitor focused.
    pub fn new(config: Config, root: XWindow, screen_width: u16, screen_height: u16, monitors: Vec<Monitor>) -> (wm: WindowManager)
        requires
            screen_width <= 32767,
            screen_height <= 32767,
            monitors@.len() * WORKSPACE_COUNT <= usize::MAX,
            forall|i: int| 0 <= i < monitors@.len() ==> rect_fits(#[trigger] monitors@[i].geometry),
        ensures
            wm.wf(),
            wm.workspaces@.len() == WORKSPACE_COUNT,
            forall|i: int| 0 <= i < WORKSPACE_COUNT ==> {
                &&& (#[trigger] wm.workspaces@[i]).id == i + 1
                &&& wm.workspaces@[i].name@ == workspace_name(i + 1)
                &&& wm.workspaces@[i].tree.empty_leaf()
                &&& wm.workspaces@[i].floating@.len() == 0
                &&& wm.workspaces@[i].focused is None
            },
            monitors@.len() > 0 ==> same_outputs(monitors@, wm.monitors@),
            monitors@.len() == 0 ==> wm.monitors@.len() == 1 && wm.monitors@[0].geometry == (Rect {
                x: 0,
                y: 0,
                width: screen_width,
                height: screen_height,
            }) && wm.monitors@[0].name@ == "default"@ && wm.monitors@[0].output == 0,
            forall|i: int| 0 <= i < wm.monitors@.len() ==> assigned(
                #[trigger] wm.monitors@[i],
                i,
                WORKSPACE_COUNT as int,
                wm.monitors@.len() as int,
            ),
            wm.windows@.len() == 0,
            wm.focused_workspace == 0,
            wm.focused_window is None,
            wm.focused_monitor == 0,
            wm.running,
            wm.root == root,
            wm.screen_width == screen_width,
            wm.screen_height == screen_height,
            wm.config == config,
    {
        let mut workspaces: Vec<Workspace> = Vec::new();
        let mut i: usize = 1;
        while i <= WORKSPACE_COUNT
            invariant
                1 <= i <= WORKSPACE_COUNT + 1,
                workspaces@.len() == i - 1,
                forall|j: int| 0 <= j < i - 1 ==> {
                    &&& (#[trigger] workspaces@[j]).id == j + 1
                    &&& workspaces@[j].name@ == workspace_name(j + 1)
                    &&& workspaces@[j].tree.empty_leaf()
                    &&& workspaces@[j].floating@.len() == 0
                    &&& workspaces@[j].focused is None
                    &&& workspaces@[j].wf()
                },
            decreases WORKSPACE_COUNT + 1 - i,
        {
            let name = workspace_name_of(i);
            workspaces.push(Workspace::new(i, name));
            i = i + 1;
        }
        let mut monitors = monitors;
        if monitors.len() == 0 {
            monitors.push(Monitor::new(String::from_str("default"), 0, Rect::new(0, 0, screen_width, screen_height)));
        }
        let ghost before = monitors@;
        assign_workspaces(&mut monitors, WORKSPACE_COUNT);
        proof {
            assert forall|k: int| 0 <= k < monitors@.len() implies #[trigger] monitors@[k].active_workspace < WORKSPACE_COUNT by {
                lemma_range_start_bounds(k, WORKSPACE_COUNT as int, monitors@.len() as int);
                assert(assigned(monitors@[k], k, WORKSPACE_COUNT as int, monitors@.len() as int));
            }
            assert forall|k: int| 0 <= k < monitors@.len() implies rect_fits(#[trigger] monitors@[k].geometry) by {
                assert(monitors@[k].geometry == before[k].geometry);
            }
            assert forall|k: int, j: int| 0 <= k < monitors@.len() && 0 <= j < monitors@[k].workspaces@.len()
                implies #[trigger] monitors@[k].workspaces@[j] < WORKSPACE_COUNT by {
                lemma_range_start_bounds(k, WORKSPACE_COUNT as int, monitors@.len() as int);
                assert(assigned(monitors@[k], k, WORKSPACE_COUNT as int, monitors@.len() as int));
            }
        }
        WindowManager {
            config,
            workspaces,
            monitors,
            windows: HashMap::new(),
            focused_workspace: 0,
            focused_window: None,
            focused_monitor: 0,
            running: true,
            root,
            screen_width,
            screen_height,
        }
    }
}

/// The first monitor whose workspaces include `idx`.
pub open spec fn holding_monitor(monitors: Seq<Monitor>, idx: usize) -> Option<int> {
    if exists|i: int| 0 <= i < monitors.len() && #[trigger] monitors[i].workspaces@.contains(idx) {
        Some(choose|i: int| 0 <= i < monitors.len() && #[trigger] monitors[i].workspaces@.contains(idx)
            && forall|j: int| 0 <= j < i ==> !#[trigger] monitors[j].workspaces@.contains(idx))
    } else {
        None
    }
}

/// Whether `x` is in `v`.
pub fn usize_vec_contains(v: &Vec<usize>, x: usize) -> (b: bool)
    ensures
        b == v@.contains(x),
{
    let mut k: usize = 0;
    while k < v.len()
        invariant
            k <= v@.len(),
            forall|j: int| 0 <= j < k ==> v@[j] != x,
        decreases v@.len() - k,
    {
        if v[k] == x {
            assert(v@[k as int] == x);
            return true;
        }
        k = k + 1;
    }
    false
}

/// The first tiled window of a workspace, else its top floating window.
pub open spec fn next_focus(ws: Workspace) -> Option<XWindow> {
    if ws.tree.window_seq().len() > 0 {
        Some(ws.tree.window_seq()[0])
    } else if ws.floating@.len() > 0 {
        Some(ws.floating@.last())
    } else {
        None
    }
}

/// The settings, the root window, the screen size and the running flag
/// are the same in `a` and `b`.
pub open spec fn same_settings(a: WindowManager, b: WindowManager) -> bool {
    &&& a.config == b.config
    &&& a.root == b.root
    &&& a.screen_width == b.screen_width
    &&& a.screen_height == b.screen_height
    &&& a.running == b.running
}

/// The two workspaces have the same number, name, visibility and last
/// monitor.
pub open spec fn same_place(a: Workspace, b: Workspace) -> bool {
    a.id == b.id && a.name == b.name && a.visible == b.visible && a.last_monitor == b.last_monitor
}

/// `w` is a window as `Window::new` makes it, on workspace `ws`.
pub open spec fn fresh_window(w: Window, id: XWindow, ws: usize) -> bool {
    &&& w.id == id
    &&& w.workspace == ws
    &&& w.floating_geometry == (Rect { x: 0, y: 0, width: 640, height: 480 })
    &&& !w.mapped
    &&& !w.focused
    &&& !w.floating
    &&& !w.fullscreen
    &&& w.pre_fullscreen_geometry is None
    &&& !w.pre_fullscreen_floating
    &&& !w.urgent
    &&& w.frame is None
    &&& w.title@.len() == 0
    &&& w.ignore_unmap_count == 0
}

/// `w` is a fresh window (see `fresh_window`) set floating at `geometry`.
pub open spec fn fresh_floating_window(w: Window, id: XWindow, ws: usize, geometry: Rect) -> bool {
    &&& fresh_window(Window { floating: false, floating_geometry: Rect { x: 0, y: 0, width: 640, height: 480 }, ..w }, id, ws)
    &&& w.floating
    &&& w.floating_geometry == geometry
}

/// A workspace's wf follows from its tree's and floating list's.
proof fn lemma_ws_wf(ws: Workspace)
    requires
        ws.tree.wf(),
        ws.floating@.no_duplicates(),
    ensures
        ws.wf(),
{
}

impl WindowManager {
    pub open spec fn spec_should_manage(&self, window: XWindow) -> bool {
        window != self.root && !self.windows@.contains_key(window)
    }

    pub open spec fn spec_screen_rect(&self) -> Rect {
        self.monitors@[self.focused_monitor as int].geometry
    }

    pub fn current_workspace(&self) -> (ws: &Workspace)
        requires
            self.wf(),
        ensures
            *ws == self.workspaces@[self.focused_workspace as int],
    {
        &self.workspaces[self.focused_workspace]
    }

    pub fn current_monitor(&self) -> (m: &Monitor)
        requires
            self.wf(),
        ensures
            *m == self.monitors@[self.focused_monitor as int],
    {
        &self.monitors[self.focused_monitor]
    }

    /// The geometry of the focused monitor.
    pub fn screen_rect(&self) -> (r: Rect)
        requires
            self.wf(),
        ensures
            r == self.spec_screen_rect(),
    {
        self.monitors[self.focused_monitor].geometry
    }

    /// The first monitor that workspace `idx` is assigned to.
    pub fn monitor_idx_for_workspace(&self, idx: usize) -> (r: Option<usize>)
        ensures
            r matches Some(i) ==> i < self.monitors@.len() && holding_monitor(self.monitors@, idx) == Some(i as int),
            r is None <==> holding_monitor(self.monitors@, idx) is None,
    {
        let mut i: usize = 0;
        while i < self.monitors.len()
            invariant
                i <= self.monitors@.len(),
                forall|j: int| 0 <= j < i ==> !#[trigger] self.monitors@[j].workspaces@.contains(idx),
            decreases self.monitors@.len() - i,
        {
            let found = usize_vec_contains(&self.monitors[i].workspaces, idx);
            if found {
                proof {
                    let c = choose|c: int| 0 <= c < self.monitors@.len() && #[trigger] self.monitors@[c].workspaces@.contains(idx)
                        && forall|j: int| 0 <= j < c ==> !#[trigger] self.monitors@[j].workspaces@.contains(idx);
                    assert(c == i) by {
                        if c < i {
                        } else if c > i {
                            assert(!self.monitors@[i as int].workspaces@.contains(idx));
                        }
                    }
                }
                return Some(i);
            }
            assert(!self.monitors@[i as int].workspaces@.contains(idx));
            i = i + 1;
        }
        None
    }

    /// The first monitor that workspace `idx` is assigned to.
    pub fn monitor_for_workspace(&self, idx: usize) -> (r: Option<&Monitor>)
        ensures
            r == (match holding_monitor(self.monitors@, idx) {
                Some(i) => Some(&self.monitors@[i]),
                None => None::<&Monitor>,
            }),
    {
        match self.monitor_idx_for_workspace(idx) {
            Some(i) => Some(&self.monitors[i]),
            None => None,
        }
    }

    /// The geometry of workspace `idx`'s monitor, else the whole screen.
    pub fn workspace_rect(&self, idx: usize) -> (r: Rect)
        ensures
            r == (match holding_monitor(self.monitors@, idx) {
                Some(i) => self.monitors@[i].geometry,
                None => Rect { x: 0, y: 0, width: self.screen_width, height: self.screen_height },
            }),
    {
        match self.monitor_idx_for_workspace(idx) {
            Some(i) => self.monitors[i].geometry,
            None => Rect::new(0, 0, self.screen_width, self.screen_height),
        }
    }

    /// Whether some monitor shows workspace `idx`.
    pub fn is_workspace_visible(&self, idx: usize) -> (b: bool)
        ensures
            b == exists|i: int| 0 <= i < self.monitors@.len() && #[trigger] self.monitors@[i].active_workspace == idx,
    {
        let mut i: usize = 0;
        while i < self.monitors.len()
            invariant
                i <= self.monitors@.len(),
                forall|j: int| 0 <= j < i ==> #[trigger] self.monitors@[j].active_workspace != idx,
            decreases self.monitors@.len() - i,
        {
            if self.monitors[i].active_workspace == idx {
                return true;
            }
            i = i + 1;
        }
        false
    }

    /// The workspace each monitor shows, in monitor order.
    pub fn visible_workspaces(&self) -> (v: Vec<usize>)
        ensures
            v@ == self.monitors@.map_values(|m: Monitor| m.active_workspace),
    {
        let mut v: Vec<usize> = Vec::new();
        let mut i: usize = 0;
        while i < self.monitors.len()
            invariant
                i <= self.monitors@.len(),
                v@ == self.monitors@.subrange(0, i as int).map_values(|m: Monitor| m.active_workspace),
            decreases self.monitors@.len() - i,
        {
            v.push(self.monitors[i].active_workspace);
            assert(self.monitors@.subrange(0, i + 1).map_values(|m: Monitor| m.active_workspace)
                =~= self.monitors@.subrange(0, i as int).map_values(|m: Monitor| m.active_workspace).push(
                self.monitors@[i as int].active_workspace,
            ));
            i = i + 1;
        }
        assert(self.monitors@.subrange(0, self.monitors@.len() as int) =~= self.monitors@);
        v
    }

    /// Whether `window` is to be managed: not the root, not managed yet.
    pub fn should_manage(&self, window: XWindow) -> (b: bool)
        ensures
            b == self.spec_should_manage(window),
    {
        window != self.root && !self.windows.contains_key(&window)
    }

    /// Manage `window` tiled on the focused workspace, next to its focused
    /// window, and focus it. Returns what to tell the X server; nothing when
    /// the window is not to be managed.
    pub fn manage_window(&mut self, window: XWindow) -> (effects: Vec<Effect>)
        requires
            old(self).wf(),
        ensures
            final(self).wf(),
            ({
                let fw = old(self).focused_workspace as int;
                let ws = old(self).workspaces@[fw];
                if old(self).spec_should_manage(window) {
                    &&& final(self).windows@ == old(self).windows@.insert(window, final(self).windows@[window])
                    &&& fresh_window(final(self).windows@[window], window, fw as usize)
                    &&& final(self).workspaces@ == old(self).workspaces@.update(fw, Workspace {
                        tree: ws.tree.spec_insert(window, ws.focused, old(self).spec_screen_rect()),
                        focused: Some(window),
                        ..ws
                    })
                    &&& final(self).focused_window == Some(window)
                    &&& effects@ == seq![Effect::SetWindowDesktop(window, fw as u32)]
                    &&& final(self).monitors@ == old(self).monitors@
                    &&& final(self).focused_workspace == old(self).focused_workspace
                    &&& final(self).focused_monitor == old(self).focused_monitor
                    &&& same_settings(*old(self), *final(self))
                } else {
                    &&& *final(self) == *old(self)
                    &&& effects@.len() == 0
                }
            }),
    {
        if !self.should_manage(window) {
            return Vec::new();
        }
        let fw = self.focused_workspace;
        let win = Window::new(window, fw);
        self.windows.insert(window, win);
        let focused = self.workspaces[fw].focused;
        let screen = self.screen_rect();
        proof {
            lemma_ratios_in_scale(self.workspaces@[fw as int].tree);
            law_layout_fits(self.workspaces@[fw as int].tree, screen, focused);
            law_insert_keeps_wf(self.workspaces@[fw as int].tree, window, focused, screen);
        }
        let ghost pre = self.workspaces@;
        self.workspaces[fw].tree.insert_with_rect(window, focused, screen);
        self.workspaces[fw].focused = Some(window);
        self.focused_window = Some(window);
        proof {
            assert(self.workspaces@ =~= pre.update(fw as int, Workspace {
                tree: pre[fw as int].tree.spec_insert(window, focused, screen),
                focused: Some(window),
                ..pre[fw as int]
            }));
            assert forall|i: int| 0 <= i < self.workspaces@.len() implies (#[trigger] self.workspaces@[i]).wf() by {
                if i == fw {
                    lemma_ws_wf(self.workspaces@[i]);
                } else {
                    assert(self.workspaces@[i] == pre[i]);
                }
            }
        }
        let mut effects: Vec<Effect> = Vec::new();
        effects.push(Effect::SetWindowDesktop(window, fw as u32));
        effects
    }
}

/// Rust's `/ 2` on a signed value: rounds toward zero.
pub open spec fn half_toward_zero(v: int) -> int {
    if v >= 0 {
        v / 2
    } else {
        -((-v) / 2)
    }
}

/// The geometry a window gets when it floats on a workspace that is not
/// focused, or when it is made floating: four fifths of the screen, at
/// least 400 by 300, centered.
pub open spec fn centered_float_geometry(screen: Rect) -> Rect {
    let w = if screen.width * 4 / 5 >= 400 { screen.width * 4 / 5 } else { 400 };
    let h = if screen.height * 4 / 5 >= 300 { screen.height * 4 / 5 } else { 300 };
    Rect {
        x: (screen.x + half_toward_zero(screen.width - w)) as i16,
        y: (screen.y + half_toward_zero(screen.height - h)) as i16,
        width: w as u16,
        height: h as u16,
    }
}

/// Computing `centered_float_geometry` overflows nothing.
pub open spec fn centered_float_ok(screen: Rect) -> bool {
    &&& screen.width * 4 <= 65535
    &&& screen.height * 4 <= 65535
    &&& i16::MIN <= screen.x + half_toward_zero(screen.width - centered_float_geometry(screen).width) <= i16::MAX
    &&& i16::MIN <= screen.y + half_toward_zero(screen.height - centered_float_geometry(screen).height) <= i16::MAX
}

/// The geometry a new floating window gets on the focused workspace: 640
/// by 480, less when the screen is within 40 pixels of that, centered.
pub open spec fn default_float_geometry(screen: Rect) -> Rect {
    let aw = if screen.width >= 40 { screen.width - 40 } else { 0 };
    let ah = if screen.height >= 40 { screen.height - 40 } else { 0 };
    let w = if aw < 640 { aw } else { 640 };
    let h = if ah < 480 { ah } else { 480 };
    Rect {
        x: (screen.x + half_toward_zero(screen.width - w)) as i16,
        y: (screen.y + half_toward_zero(screen.height - h)) as i16,
        width: w as u16,
        height: h as u16,
    }
}

/// Computing `default_float_geometry` overflows nothing.
pub open spec fn default_float_ok(screen: Rect) -> bool {
    &&& screen.width <= 32767
    &&& screen.height <= 32767
    &&& i16::MIN <= screen.x + half_toward_zero(screen.width - default_float_geometry(screen).width) <= i16::MAX
    &&& i16::MIN <= screen.y + half_toward_zero(screen.height - default_float_geometry(screen).height) <= i16::MAX
}

fn half_i32(v: i32) -> (r: i32)
    ensures
        r == half_toward_zero(v as int),
{
    if v >= 0 {
        v / 2
    } else {
        -((-(v as i64)) / 2) as i32
    }
}

/// See `centered_float_geometry`.
pub fn centered_float_rect(screen: Rect) -> (r: Rect)
    requires
        centered_float_ok(screen),
    ensures
        r == centered_float_geometry(screen),
{
    let w4 = screen.width * 4 / 5;
    let h4 = screen.height * 4 / 5;
    let w: u16 = if w4 >= 400 { w4 } else { 400 };
    let h: u16 = if h4 >= 300 { h4 } else { 300 };
    let dx = half_i32(screen.width as i32 - w as i32);
    let dy = half_i32(screen.height as i32 - h as i32);
    Rect::new((screen.x as i32 + dx) as i16, (screen.y as i32 + dy) as i16, w, h)
}

/// See `default_float_geometry`.
pub fn default_float_rect(screen: Rect) -> (r: Rect)
    requires
        default_float_ok(screen),
    ensures
        r == default_float_geometry(screen),
{
    let aw: u16 = if screen.width >= 40 { screen.width - 40 } else { 0 };
    let ah: u16 = if screen.height >= 40 { screen.height - 40 } else { 0 };
    let w: u16 = if aw < 640 { aw } else { 640 };
    let h: u16 = if ah < 480 { ah } else { 480 };
    let dx = half_i32(screen.width as i32 - w as i32);
    let dy = half_i32(screen.height as i32 - h as i32);
    Rect::new((screen.x as i32 + dx) as i16, (screen.y as i32 + dy) as i16, w, h)
}

impl WindowManager {
    /// Manage `window` tiled on workspace `ws_idx`, next to that workspace's
    /// focused window, without focusing it.
    pub fn manage_window_on_workspace(&mut self, window: XWindow, ws_idx: usize) -> (effects: Vec<Effect>)
        requires
            old(self).wf(),
            ws_idx < old(self).workspaces@.len(),
        ensures
            final(self).wf(),
            ({
                let ws = old(self).workspaces@[ws_idx as int];
                if old(self).spec_should_manage(window) {
                    &&& final(self).windows@ == old(self).windows@.insert(window, final(self).windows@[window])
                    &&& fresh_window(final(self).windows@[window], window, ws_idx)
                    &&& final(self).workspaces@ == old(self).workspaces@.update(ws_idx as int, Workspace {
                        tree: ws.tree.spec_insert(window, ws.focused, old(self).spec_screen_rect()),
                        ..ws
                    })
                    &&& effects@ == seq![Effect::SetWindowDesktop(window, ws_idx as u32)]
                    &&& final(self).focused_window == old(self).focused_window
                    &&& final(self).monitors@ == old(self).monitors@
                    &&& final(self).focused_workspace == old(self).focused_workspace
                    &&& final(self).focused_monitor == old(self).focused_monitor
                    &&& same_settings(*old(self), *final(self))
                } else {
                    &&& *final(self) == *old(self)
                    &&& effects@.len() == 0
                }
            }),
    {
        if !self.should_manage(window) {
            return Vec::new();
        }
        let win = Window::new(window, ws_idx);
        self.windows.insert(window, win);
        let focused = self.workspaces[ws_idx].focused;
        let screen = self.screen_rect();
        proof {
            lemma_ratios_in_scale(self.workspaces@[ws_idx as int].tree);
            law_layout_fits(self.workspaces@[ws_idx as int].tree, screen, focused);
            law_insert_keeps_wf(self.workspaces@[ws_idx as int].tree, window, focused, screen);
        }
        let ghost pre = self.workspaces@;
        self.workspaces[ws_idx].tree.insert_with_rect(window, focused, screen);
        proof {
            assert(self.workspaces@ =~= pre.update(ws_idx as int, Workspace {
                tree: pre[ws_idx as int].tree.spec_insert(window, focused, screen),
                ..pre[ws_idx as int]
            }));
            assert forall|i: int| 0 <= i < self.workspaces@.len() implies (#[trigger] self.workspaces@[i]).wf() by {
                if i == ws_idx {
                    lemma_ws_wf(self.workspaces@[i]);
                } else {
                    assert(self.workspaces@[i] == pre[i]);
                }
            }
        }
        let mut effects: Vec<Effect> = Vec::new();
        effects.push(Effect::SetWindowDesktop(window, ws_idx as u32));
        effects
    }

    /// Manage `window` floating on workspace `ws_idx`, centered at four
    /// fifths of the focused monitor, on top of that workspace's stack.
    pub fn manage_window_floating_on_workspace(&mut self, window: XWindow, ws_idx: usize) -> (effects: Vec<Effect>)
        requires
            old(self).wf(),
            ws_idx < old(self).workspaces@.len(),
            centered_float_ok(old(self).spec_screen_rect()),
        ensures
            final(self).wf(),
            ({
                let ws = old(self).workspaces@[ws_idx as int];
                if old(self).spec_should_manage(window) {
                    &&& final(self).windows@ == old(self).windows@.insert(window, final(self).windows@[window])
                    &&& fresh_floating_window(final(self).windows@[window], window, ws_idx,
                        centered_float_geometry(old(self).spec_screen_rect()))
                    &&& final(self).workspaces@ == old(self).workspaces@.update(ws_idx as int, Workspace {
                        floating: final(self).workspaces@[ws_idx as int].floating,
                        ..ws
                    })
                    &&& final(self).workspaces@[ws_idx as int].floating@ == (if ws.floating@.contains(window) {
                        ws.floating@
                    } else {
                        ws.floating@.push(window)
                    })
                    &&& effects@ == seq![Effect::SetWindowDesktop(window, ws_idx as u32)]
                    &&& final(self).focused_window == old(self).focused_window
                    &&& final(self).monitors@ == old(self).monitors@
                    &&& final(self).focused_workspace == old(self).focused_workspace
                    &&& final(self).focused_monitor == old(self).focused_monitor
                    &&& same_settings(*old(self), *final(self))
                } else {
                    &&& *final(self) == *old(self)
                    &&& effects@.len() == 0
                }
            }),
    {
        if !self.should_manage(window) {
            return Vec::new();
        }
        let screen = self.screen_rect();
        let geometry = centered_float_rect(screen);
        let mut win = Window::new(window, ws_idx);
        win.floating = true;
        win.floating_geometry = geometry;
        self.windows.insert(window, win);
        let ghost pre = self.workspaces@;
        self.workspaces[ws_idx].add_floating(window);
        proof {
            assert forall|i: int| 0 <= i < self.workspaces@.len() implies (#[trigger] self.workspaces@[i]).wf() by {
                if i != ws_idx {
                    assert(self.workspaces@[i] == pre[i]);
                }
            }
            assert(self.workspaces@ =~= pre.update(ws_idx as int, Workspace {
                floating: self.workspaces@[ws_idx as int].floating,
                ..pre[ws_idx as int]
            }));
        }
        let mut effects: Vec<Effect> = Vec::new();
        effects.push(Effect::SetWindowDesktop(window, ws_idx as u32));
        effects
    }

    /// Manage `window` floating on the focused workspace, centered at up to
    /// 640 by 480, on top of the stack, and focus it.
    pub fn manage_window_floating(&mut self, window: XWindow) -> (effects: Vec<Effect>)
        requires
            old(self).wf(),
            default_float_ok(old(self).spec_screen_rect()),
        ensures
            final(self).wf(),
            ({
                let fw = old(self).focused_workspace as int;
                let ws = old(self).workspaces@[fw];
                if old(self).spec_should_manage(window) {
                    &&& final(self).windows@ == old(self).windows@.insert(window, final(self).windows@[window])
                    &&& fresh_floating_window(final(self).windows@[window], window, fw as usize,
                        default_float_geometry(old(self).spec_screen_rect()))
                    &&& final(self).workspaces@ == old(self).workspaces@.update(fw, Workspace {
                        floating: final(self).workspaces@[fw].floating,
                        focused: Some(window),
                        ..ws
                    })
                    &&& final(self).workspaces@[fw].floating@ == (if ws.floating@.contains(window) {
                        ws.floating@
                    } else {
                        ws.floating@.push(window)
                    })
                    &&& effects@ == seq![Effect::SetWindowDesktop(window, fw as u32)]
                    &&& final(self).focused_window == Some(window)
                    &&& final(self).monitors@ == old(self).monitors@
                    &&& final(self).focused_workspace == old(self).focused_workspace
                    &&& final(self).focused_monitor == old(self).focused_monitor
                    &&& same_settings(*old(self), *final(self))
                } else {
                    &&& *final(self) == *old(self)
                    &&& effects@.len() == 0
                }
            }),
    {
        if !self.should_manage(window) {
            return Vec::new();
        }
        let fw = self.focused_workspace;
        let screen = self.screen_rect();
        let geometry = default_float_rect(screen);
        let mut win = Window::new(window, fw);
        win.floating = true;
        win.floating_geometry = geometry;
        self.windows.insert(window, win);
        let ghost pre = self.workspaces@;
        self.workspaces[fw].add_floating(window);
        self.workspaces[fw].focused = Some(window);
        self.focused_window = Some(window);
        proof {
            assert forall|i: int| 0 <= i < self.workspaces@.len() implies (#[trigger] self.workspaces@[i]).wf() by {
                if i != fw {
                    assert(self.workspaces@[i] == pre[i]);
                }
            }
            assert(self.workspaces@ =~= pre.update(fw as int, Workspace {
                floating: self.workspaces@[fw as int].floating,
                focused: Some(window),
                ..pre[fw as int]
            }));
        }
        let mut effects: Vec<Effect> = Vec::new();
        effects.push(Effect::SetWindowDesktop(window, fw as u32));
        effects
    }
}

impl WindowManager {
    /// Stop managing `window`: forget it and take it off its workspace. When
    /// it had the focus, the focus goes to that workspace's first tiled
    /// window, else its top floating one, else nowhere. Returns whether the
    /// window was managed.
    pub fn unmanage_window(&mut self, window: XWindow) -> (was_managed: bool)
        requires
            old(self).wf(),
        ensures
            final(self).wf(),
            was_managed == old(self).windows@.contains_key(window),
            final(self).monitors@ == old(self).monitors@,
            final(self).focused_workspace == old(self).focused_workspace,
            final(self).focused_monitor == old(self).focused_monitor,
            final(self).config == old(self).config,
            final(self).root == old(self).root,
            final(self).screen_width == old(self).screen_width,
            final(self).screen_height == old(self).screen_height,
            final(self).running == old(self).running,
            !was_managed ==> *final(self) == *old(self),
            was_managed ==> {
                let win = old(self).windows@[window];
                let i = win.workspace as int;
                let ws = old(self).workspaces@[i];
                let ws2 = final(self).workspaces@[i];
                &&& final(self).windows@ == old(self).windows@.remove(window)
                &&& final(self).workspaces@.len() == old(self).workspaces@.len()
                &&& forall|j: int| 0 <= j < final(self).workspaces@.len() && j != i ==> #[trigger] final(self).workspaces@[j] == old(self).workspaces@[j]
                &&& ws2.id == ws.id && ws2.name == ws.name && ws2.visible == ws.visible && ws2.last_monitor == ws.last_monitor
                &&& (if win.floating {
                    ws2.tree == ws.tree && ws2.floating@ == without(ws.floating@, window)
                } else {
                    ws2.tree == ws.tree.spec_remove(window).0 && ws2.floating@ == ws.floating@
                })
                &&& (if old(self).focused_window == Some(window) {
                    &&& final(self).focused_window == next_focus(ws2)
                    &&& ws2.focused == next_focus(ws2)
                } else {
                    &&& final(self).focused_window == old(self).focused_window
                    &&& ws2.focused == ws.focused
                })
            },
    {
        if !self.windows.contains_key(&window) {
            return false;
        }
        let removed = self.windows.remove(&window);
        match removed {
            None => {
                return false;
            },
            Some(win) => {
                let ws_idx = win.workspace;
                let ghost pre = self.workspaces@;
                if win.floating {
                    self.workspaces[ws_idx].remove_floating(window);
                    proof {
                        crate::wm::workspace::lemma_without(pre[ws_idx as int].floating@, window);
                    }
                } else {
                    proof {
                        law_remove_keeps_wf(pre[ws_idx as int].tree, window);
                    }
                    self.workspaces[ws_idx].tree.remove(window);
                }
                if self.focused_window == Some(window) {
                    let next = match self.workspaces[ws_idx].tree.first_window() {
                        Some(w) => Some(w),
                        None => {
                            let n = self.workspaces[ws_idx].floating.len();
                            if n > 0 {
                                Some(self.workspaces[ws_idx].floating[n - 1])
                            } else {
                                None
                            }
                        },
                    };
                    self.focused_window = next;
                    self.workspaces[ws_idx].focused = next;
                }
                proof {
                    assert forall|j: int| 0 <= j < self.workspaces@.len() implies (#[trigger] self.workspaces@[j]).wf() by {
                        if j != ws_idx {
                            assert(self.workspaces@[j] == pre[j]);
                        }
                    }
                    assert forall|j: int| 0 <= j < self.workspaces@.len() && j != ws_idx implies #[trigger] self.workspaces@[j] == pre[j] by {
                    }
                }
                true
            },
        }
    }

    /// Give `window` the focus: it becomes the focused window and the
    /// focused workspace's, and the X server is told (warping the pointer to
    /// it when `warp` is set).
    pub fn set_focus(&mut self, window: XWindow, warp: bool) -> (effects: Vec<Effect>)
        requires
            old(self).wf(),
        ensures
            final(self).wf(),
            final(self).focused_window == Some(window),
            final(self).workspaces@ == old(self).workspaces@.update(
                old(self).focused_workspace as int,
                Workspace { focused: Some(window), ..old(self).workspaces@[old(self).focused_workspace as int] },
            ),
            final(self).windows@ == old(self).windows@,
            final(self).monitors@ == old(self).monitors@,
            final(self).focused_workspace == old(self).focused_workspace,
            final(self).focused_monitor == old(self).focused_monitor,
            final(self).config == old(self).config,
            final(self).root == old(self).root,
            final(self).screen_width == old(self).screen_width,
            final(self).screen_height == old(self).screen_height,
            final(self).running == old(self).running,
            effects@ == seq![Effect::Focus(window, warp)],
    {
        let fw = self.focused_workspace;
        let ghost pre = self.workspaces@;
        self.focused_window = Some(window);
        self.workspaces[fw].focused = Some(window);
        proof {
            assert(self.workspaces@ =~= pre.update(fw as int, Workspace { focused: Some(window), ..pre[fw as int] }));
            assert forall|j: int| 0 <= j < self.workspaces@.len() implies (#[trigger] self.workspaces@[j]).wf() by {
                if j != fw {
                    assert(self.workspaces@[j] == pre[j]);
                }
            }
        }
        let mut effects: Vec<Effect> = Vec::new();
        effects.push(Effect::Focus(window, warp));
        effects
    }
}

/// The windows' map after each window of `ws` (counted as often as it
/// occurs) had one more unmap notification to ignore.
pub open spec fn bump_unmaps(m: Map<XWindow, Window>, ws: Seq<XWindow>) -> Map<XWindow, Window>
    decreases ws.len(),
{
    if ws.len() == 0 {
        m
    } else {
        let m2 = bump_unmaps(m, ws.drop_last());
        let w = ws.last();
        if m2.contains_key(w) {
            m2.insert(w, Window { ignore_unmap_count: (m2[w].ignore_unmap_count + 1) as u32, ..m2[w] })
        } else {
            m2
        }
    }
}

/// Room to count `n` more unmaps of every managed window.
pub open spec fn unmap_room(m: Map<XWindow, Window>, n: int) -> bool {
    forall|w: XWindow| #[trigger] m.contains_key(w) ==> m[w].ignore_unmap_count + n <= u32::MAX
}

/// The center of a monitor, where the pointer is put when there is no
/// window to focus on it.
pub open spec fn rect_center(r: Rect) -> (i16, i16) {
    ((r.x + r.width / 2) as i16, (r.y + r.height / 2) as i16)
}

pub open spec fn unmap_effects(ws: Seq<XWindow>) -> Seq<Effect> {
    ws.map_values(|w: XWindow| Effect::UnmapWindow(w))
}

pub open spec fn map_effects(ws: Seq<XWindow>) -> Seq<Effect> {
    ws.map_values(|w: XWindow| Effect::MapWindow(w))
}

/// What giving the focus to a workspace's candidate tells the X server:
/// focus it, or clear the active window (and put the pointer at `center`
/// when asked) when there is none.
pub open spec fn focus_effects(c: Option<XWindow>, warp: bool, center: Option<(i16, i16)>) -> Seq<Effect> {
    match c {
        Some(w) => seq![Effect::Focus(w, warp)],
        None => seq![Effect::ClearActiveWindow] + (match center {
            Some(p) => if warp { seq![Effect::WarpPointer(p.0, p.1)] } else { Seq::empty() },
            None => Seq::empty(),
        }),
    }
}

/// The focus event sent when the focused workspace changes.
pub open spec fn workspace_event(idx: usize, old: usize) -> Seq<Effect> {
    if idx != old {
        seq![Effect::WorkspaceEvent(idx, Some(old))]
    } else {
        Seq::empty()
    }
}

/// The workspaces after workspace `idx` focuses `c`.
pub open spec fn with_focus(wss: Seq<Workspace>, idx: int, c: Option<XWindow>) -> Seq<Workspace> {
    match c {
        Some(w) => wss.update(idx, Workspace { focused: Some(w), ..wss[idx] }),
        None => wss,
    }
}

fn center_of(r: Rect) -> (p: (i16, i16))
    requires
        rect_fits(r),
    ensures
        p == rect_center(r),
{
    ((r.x as i32 + (r.width / 2) as i32) as i16, (r.y as i32 + (r.height / 2) as i32) as i16)
}

impl WindowManager {
    /// How many windows the focused monitor shows (counting one twice if it
    /// is both tiled and floating).
    pub open spec fn shown_window_count(&self) -> int {
        self.workspaces@[self.monitors@[self.focused_monitor as int].active_workspace as int].window_seq().len() as int
    }

    /// Whether every managed window can count `n` more unmaps.
    pub open spec fn spec_unmap_room(&self, n: int) -> bool {
        unmap_room(self.windows@, n)
    }

    /// The window workspace `idx` gives the focus to (see `focus_candidate`).
    pub fn focus_candidate_of(&self, idx: usize) -> (c: Option<XWindow>)
        requires
            idx < self.workspaces@.len(),
            self.workspaces@[idx as int].wf(),
        ensures
            c == focus_candidate(self.workspaces@[idx as int]),
    {
        let ws = &self.workspaces[idx];
        match ws.focused {
            Some(w) => Some(w),
            None => {
                let n = ws.floating.len();
                if n > 0 {
                    Some(ws.floating[n - 1])
                } else {
                    ws.tree.first_window()
                }
            },
        }
    }

    /// The first monitor showing workspace `idx`.
    pub fn showing_monitor_of(&self, idx: usize) -> (r: Option<usize>)
        ensures
            r matches Some(i) ==> i < self.monitors@.len() && showing_monitor(self.monitors@, idx) == Some(i as int),
            r is None <==> showing_monitor(self.monitors@, idx) is None,
    {
        let mut i: usize = 0;
        while i < self.monitors.len()
            invariant
                i <= self.monitors@.len(),
                forall|j: int| 0 <= j < i ==> #[trigger] self.monitors@[j].active_workspace != idx,
            decreases self.monitors@.len() - i,
        {
            if self.monitors[i].active_workspace == idx {
                proof {
                    let c = choose|c: int| 0 <= c < self.monitors@.len() && #[trigger] self.monitors@[c].active_workspace == idx
                        && forall|j: int| 0 <= j < c ==> #[trigger] self.monitors@[j].active_workspace != idx;
                    assert(c == i) by {
                        if c > i {
                            assert(self.monitors@[i as int].active_workspace != idx);
                        }
                    }
                }
                return Some(i);
            }
            i = i + 1;
        }
        None
    }

    fn hide_windows(&mut self, ws_windows: &Vec<XWindow>, effects: &mut Vec<Effect>)
        requires
            old(self).wf(),
            unmap_room(old(self).windows@, ws_windows@.len() as int),
        ensures
            final(self).wf(),
            final(self).windows@ == bump_unmaps(old(self).windows@, ws_windows@),
            final(self).workspaces@ == old(self).workspaces@,
            final(self).monitors@ == old(self).monitors@,
            final(self).focused_window == old(self).focused_window,
            final(self).focused_workspace == old(self).focused_workspace,
            final(self).focused_monitor == old(self).focused_monitor,
            same_settings(*old(self), *final(self)),
            final(effects)@ == old(effects)@ + unmap_effects(ws_windows@),
    {
        let mut i: usize = 0;
        let ghost m0 = self.windows@;
        let ghost e0 = effects@;
        proof {
            assert(ws_windows@.subrange(0, 0) =~= Seq::<XWindow>::empty());
            assert(unmap_effects(ws_windows@.subrange(0, 0)) =~= Seq::<Effect>::empty());
            assert(e0 + Seq::<Effect>::empty() =~= e0);
        }
        while i < ws_windows.len()
            invariant
                i <= ws_windows@.len(),
                self.wf(),
                self.windows@ == bump_unmaps(m0, ws_windows@.subrange(0, i as int)),
                forall|w: XWindow| #[trigger] self.windows@.contains_key(w) <==> m0.contains_key(w),
                forall|w: XWindow| #[trigger] self.windows@.contains_key(w) ==> self.windows@[w].ignore_unmap_count <= m0[w].ignore_unmap_count + i
                    && self.windows@[w].workspace == m0[w].workspace,
                unmap_room(m0, ws_windows@.len() as int),
                self.workspaces@ == old(self).workspaces@,
                self.monitors@ == old(self).monitors@,
                self.focused_window == old(self).focused_window,
                self.focused_workspace == old(self).focused_workspace,
                self.focused_monitor == old(self).focused_monitor,
                same_settings(*old(self), *self),
                effects@ == e0 + unmap_effects(ws_windows@.subrange(0, i as int)),
            decreases ws_windows@.len() - i,
        {
            let w = ws_windows[i];
            let ghost q = ws_windows@.subrange(0, i + 1);
            assert(q.drop_last() =~= ws_windows@.subrange(0, i as int));
            if self.windows.contains_key(&w) {
                let removed = self.windows.remove(&w);
                if let Some(mut win) = removed {
                    win.ignore_unmap_count = win.ignore_unmap_count + 1;
                    self.windows.insert(w, win);
                }
            }
            effects.push(Effect::UnmapWindow(w));
            assert(unmap_effects(q) =~= unmap_effects(ws_windows@.subrange(0, i as int)).push(Effect::UnmapWindow(w)));
            i = i + 1;
        }
        assert(ws_windows@.subrange(0, ws_windows@.len() as int) =~= ws_windows@);
    }
}

fn push_map_effects(effects: &mut Vec<Effect>, ws_windows: &Vec<XWindow>)
    ensures
        final(effects)@ == old(effects)@ + map_effects(ws_windows@),
{
    let ghost e0 = effects@;
    let mut i: usize = 0;
    proof {
        assert(map_effects(ws_windows@.subrange(0, 0)) =~= Seq::<Effect>::empty());
        assert(e0 + Seq::<Effect>::empty() =~= e0);
    }
    while i < ws_windows.len()
        invariant
            i <= ws_windows@.len(),
            effects@ == e0 + map_effects(ws_windows@.subrange(0, i as int)),
        decreases ws_windows@.len() - i,
    {
        let w = ws_windows[i];
        effects.push(Effect::MapWindow(w));
        assert(map_effects(ws_windows@.subrange(0, i + 1)) =~= map_effects(ws_windows@.subrange(0, i as int)).push(Effect::MapWindow(w)));
        i = i + 1;
    }
    assert(ws_windows@.subrange(0, ws_windows@.len() as int) =~= ws_windows@);
}

/// Workspace `idx` shown from state `o` (see
/// `WindowManager::switch_workspace_impl`) gives state `f` and `effects`.
pub open spec fn switched(o: WindowManager, f: WindowManager, idx: usize, warp: bool, effects: Seq<Effect>) -> bool {
    let fm = o.focused_monitor as int;
    let c = focus_candidate(o.workspaces@[idx as int]);
    if idx >= o.workspaces@.len() || showing_monitor(o.monitors@, idx) == Some(fm) {
        &&& f == o
        &&& effects.len() == 0
    } else if showing_monitor(o.monitors@, idx) is Some {
        let m = showing_monitor(o.monitors@, idx)->0;
        &&& f.focused_monitor == m
        &&& f.focused_workspace == idx
        &&& f.focused_window == c
        &&& f.monitors@ =~= o.monitors@
        &&& f.windows@ =~= o.windows@
        &&& f.workspaces@ =~= with_focus(o.workspaces@, idx as int, c)
        &&& same_settings(o, f)
        &&& effects =~= seq![Effect::SetCurrentDesktop(idx as u32)]
            + (if warp {
                seq![Effect::WarpPointer(rect_center(o.monitors@[m].geometry).0, rect_center(o.monitors@[m].geometry).1)]
            } else {
                Seq::empty()
            })
            + focus_effects(c, warp, None)
            + workspace_event(idx, o.focused_workspace)
    } else {
        let shown = o.monitors@[fm].active_workspace as int;
        &&& f.focused_monitor == o.focused_monitor
        &&& f.focused_workspace == idx
        &&& f.focused_window == c
        &&& f.monitors@ =~= o.monitors@.update(fm, Monitor { active_workspace: idx, ..o.monitors@[fm] })
        &&& same_settings(o, f)
        &&& f.windows@ =~= bump_unmaps(o.windows@, o.workspaces@[shown].window_seq())
        &&& f.workspaces@ =~= with_focus(o.workspaces@, idx as int, c)
        &&& effects =~= unmap_effects(o.workspaces@[shown].window_seq())
            + seq![Effect::SetCurrentDesktop(idx as u32)]
            + map_effects(o.workspaces@[idx as int].window_seq())
            + seq![Effect::ApplyLayout]
            + focus_effects(c, warp, Some(rect_center(o.monitors@[fm].geometry)))
            + workspace_event(idx, o.focused_workspace)
    }
}

impl WindowManager {
    /// Focus workspace `idx`'s candidate window on the focused workspace
    /// (which is `idx`), or clear the focus and, when asked, warp the
    /// pointer to `center`.
    fn focus_on_workspace(&mut self, idx: usize, warp: bool, center: Option<(i16, i16)>, effects: &mut Vec<Effect>)
        requires
            old(self).wf(),
            old(self).focused_workspace == idx,
        ensures
            final(self).wf(),
            final(self).focused_window == focus_candidate(old(self).workspaces@[idx as int]),
            final(self).workspaces@ == with_focus(old(self).workspaces@, idx as int, focus_candidate(old(self).workspaces@[idx as int])),
            final(self).windows@ == old(self).windows@,
            final(self).monitors@ == old(self).monitors@,
            final(self).focused_workspace == old(self).focused_workspace,
            final(self).focused_monitor == old(self).focused_monitor,
            same_settings(*old(self), *final(self)),
            final(effects)@ == old(effects)@ + focus_effects(focus_candidate(old(self).workspaces@[idx as int]), warp, center),
    {
        match self.focus_candidate_of(idx) {
            Some(w) => {
                let mut e = self.set_focus(w, warp);
                effects.append(&mut e);
            },
            None => {
                self.focused_window = None;
                effects.push(Effect::ClearActiveWindow);
                if warp {
                    if let Some(p) = center {
                        effects.push(Effect::WarpPointer(p.0, p.1));
                    }
                }
                proof {
                    let c = focus_candidate(old(self).workspaces@[idx as int]);
                    assert(focus_effects(c, warp, center) =~= effects@.subrange(old(effects)@.len() as int, effects@.len() as int));
                    assert(effects@ =~= old(effects)@ + focus_effects(c, warp, center));
                }
            },
        }
    }

    /// Show workspace `idx` the way i3 does. When a monitor other than the
    /// focused one shows it, that monitor gets the focus; when none does,
    /// the focused monitor shows it instead of its current workspace, whose
    /// windows are unmapped. The workspace's candidate window (see
    /// `focus_candidate`) gets the focus. Nothing happens when `idx` is out
    /// of range or already focused on the focused monitor.
    #[verifier::rlimit(40)]
    pub fn switch_workspace_impl(&mut self, idx: usize, warp: bool) -> (effects: Vec<Effect>)
        requires
            old(self).wf(),
            idx < old(self).workspaces@.len() && showing_monitor(old(self).monitors@, idx) is None
                ==> old(self).spec_unmap_room(old(self).shown_window_count()),
        ensures
            final(self).wf(),
            switched(*old(self), *final(self), idx, warp, effects@),
    {
        let mut effects: Vec<Effect> = Vec::new();
        if idx >= self.workspaces.len() {
            return effects;
        }
        let old_ws = self.focused_workspace;
        match self.showing_monitor_of(idx) {
            Some(m) => {
                if m == self.focused_monitor {
                    return effects;
                }
                self.focused_monitor = m;
                self.focused_workspace = idx;
                effects.push(Effect::SetCurrentDesktop(idx as u32));
                if warp {
                    let (cx, cy) = center_of(self.monitors[m].geometry);
                    effects.push(Effect::WarpPointer(cx, cy));
                }
                let ghost e1 = effects@;
                self.focus_on_workspace(idx, warp, None, &mut effects);
                if idx != old_ws {
                    effects.push(Effect::WorkspaceEvent(idx, Some(old_ws)));
                }
                proof {
                    let c = focus_candidate(old(self).workspaces@[idx as int]);
                    assert(effects@ =~= e1 + focus_effects(c, warp, None) + workspace_event(idx, old_ws));
                }
            },
            None => {
                let cm = self.focused_monitor;
                let shown = self.monitors[cm].active_workspace;
                let hidden = self.workspaces[shown].all_windows();
                self.hide_windows(&hidden, &mut effects);
                let ghost pre_m = self.monitors@;
                self.monitors[cm].active_workspace = idx;
                proof {
                    assert(self.monitors@ =~= pre_m.update(cm as int, Monitor { active_workspace: idx, ..pre_m[cm as int] }));
                    assert forall|j: int| 0 <= j < self.monitors@.len() implies #[trigger] self.monitors@[j].active_workspace < self.workspaces@.len()
                        && rect_fits(self.monitors@[j].geometry) by {
                        if j != cm {
                            assert(self.monitors@[j] == pre_m[j]);
                        }
                    }
                }
                self.focused_workspace = idx;
                effects.push(Effect::SetCurrentDesktop(idx as u32));
                let shown_now = self.workspaces[idx].all_windows();
                push_map_effects(&mut effects, &shown_now);
                effects.push(Effect::ApplyLayout);
                let center = center_of(self.monitors[cm].geometry);
                let ghost e1 = effects@;
                self.focus_on_workspace(idx, warp, Some(center), &mut effects);
                if idx != old_ws {
                    effects.push(Effect::WorkspaceEvent(idx, Some(old_ws)));
                }
                proof {
                    let c = focus_candidate(old(self).workspaces@[idx as int]);
                    assert(effects@ =~= e1 + focus_effects(c, warp, Some(center)) + workspace_event(idx, old_ws));
                }
            },
        }
        effects
    }

    /// Show workspace `idx` (see `switch_workspace_impl`), warping the pointer.
    pub fn switch_workspace(&mut self, idx: usize) -> (effects: Vec<Effect>)
        requires
            old(self).wf(),
            idx < old(self).workspaces@.len() && showing_monitor(old(self).monitors@, idx) is None
                ==> old(self).spec_unmap_room(old(self).shown_window_count()),
        ensures
            final(self).wf(),
            switched(*old(self), *final(self), idx, true, effects@),
    {
        self.switch_workspace_impl(idx, true)
    }
}

/// Bumping keeps the managed windows and all but their unmap counts, which
/// grow by at most the number of windows bumped.
pub proof fn lemma_bump(m: Map<XWindow, Window>, ws: Seq<XWindow>)
    requires
        unmap_room(m, ws.len() as int),
    ensures
        forall|w: XWindow| #[trigger] bump_unmaps(m, ws).contains_key(w) <==> m.contains_key(w),
        forall|w: XWindow| #[trigger] bump_unmaps(m, ws).contains_key(w) ==> {
            &&& bump_unmaps(m, ws)[w].ignore_unmap_count <= m[w].ignore_unmap_count + ws.len()
            &&& bump_unmaps(m, ws)[w].ignore_unmap_count >= m[w].ignore_unmap_count
            &&& bump_unmaps(m, ws)[w] == Window { ignore_unmap_count: bump_unmaps(m, ws)[w].ignore_unmap_count, ..m[w] }
        },
    decreases ws.len(),
{
    if ws.len() > 0 {
        lemma_bump(m, ws.drop_last());
        let m2 = bump_unmaps(m, ws.drop_last());
        let w = ws.last();
        if m2.contains_key(w) {
            assert(m.contains_key(w));
        }
    }
}

/// Room shrinks by what a bump uses.
pub proof fn lemma_bump_room(m: Map<XWindow, Window>, ws: Seq<XWindow>, n: int)
    requires
        unmap_room(m, ws.len() + n),
        n >= 0,
    ensures
        unmap_room(bump_unmaps(m, ws), n),
{
    lemma_bump(m, ws);
}

} // verus!
