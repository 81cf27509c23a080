//! Properties of the window manager that span several operations or hold
//! of every input: what a drag gives back when the pointer returns to
//! where it started, what managing and then forgetting a window leaves,
//! how workspaces are shared among monitors, and how monitors are ordered.
use vstd::prelude::*;
use crate::wm::drag::{DragState, PointerState};
use crate::wm::handlers::window_removed;
use crate::wm::manager::{assigned, fresh_window, index_range, range_start, Effect, WindowManager};
use crate::wm::monitor::Monitor;
use crate::wm::motion::{dragged_ratio, drag_moved};
use crate::wm::tree::{Rect, XWindow, RATIO_MAX, RATIO_MIN};
use crate::wm::tree_laws::law_insert_then_remove;
use crate::wm::workspace::Workspace;
use crate::x11::events::{spec_calculate_resize, ResizeEdge};
use crate::x11::frames::FrameManager;
use crate::x11::properties::{by_position, insert_pos};

verus! {

/// Moving a floating window with the pointer and bringing the pointer back
/// to where the drag began puts the window back where it was.
pub proof fn law_move_drag_back(o: WindowManager, f: WindowManager, op: PointerState, fp: PointerState, effects: Seq<Effect>, window: XWindow, x: i16, y: i16, start: Rect)
    requires
        op.drag == Some(DragState::Move { window, start_x: x, start_y: y, start_geometry: start }),
        drag_moved(o, f, op, fp, x, y, effects),
        o.windows@.contains_key(window),
    ensures
        f.windows@[window].floating_geometry.x == start.x,
        f.windows@[window].floating_geometry.y == start.y,
        f.windows@[window].floating_geometry.width == o.windows@[window].floating_geometry.width,
        f.windows@[window].floating_geometry.height == o.windows@[window].floating_geometry.height,
{
}

/// Resizing a floating window from any edge and bringing the pointer back
/// to where the drag began gives back the geometry it had, when that was
/// at least the smallest size and fit the coordinate space.
pub proof fn law_resize_drag_back(g: Rect, edge: ResizeEdge)
    requires
        50 <= g.width <= 32767,
        50 <= g.height <= 32767,
    ensures
        spec_calculate_resize(g, edge, 0, 0) == (g.x, g.y, g.width, g.height),
{
}

/// Dragging the border between two tiles and bringing the pointer back to
/// where the drag began gives back the split ratio it had.
pub proof fn law_border_drag_back(start: u32, container: u16)
    requires
        RATIO_MIN <= start <= RATIO_MAX,
    ensures
        dragged_ratio(start, 0, container) == start,
{
}

/// Recording a frame for a client that had none, and forgetting it again,
/// leaves the frame records as they were; while it is recorded each is
/// found from the other.
pub proof fn law_frame_track_untrack(fm: FrameManager, client: XWindow, frame: XWindow)
    requires
        !fm.frames().contains_key(client),
        !fm.clients().contains_key(frame),
    ensures
        fm.frames().insert(client, frame)[client] == frame,
        fm.clients().insert(frame, client)[frame] == client,
        fm.frames().insert(client, frame).remove(client) == fm.frames(),
        fm.clients().insert(frame, client).remove(frame) == fm.clients(),
{
    assert(fm.frames().insert(client, frame).remove(client) =~= fm.frames());
    assert(fm.clients().insert(frame, client).remove(frame) =~= fm.clients());
}

/// State `f` is `o` with `window` managed tiled on the focused workspace
/// and focused (see `WindowManager::manage_window`).
pub open spec fn managed_tiled(o: WindowManager, f: WindowManager, window: XWindow) -> bool {
    let fw = o.focused_workspace as int;
    let ws = o.workspaces@[fw];
    &&& f.windows@ == o.windows@.insert(window, f.windows@[window])
    &&& fresh_window(f.windows@[window], window, fw as usize)
    &&& f.workspaces@ == o.workspaces@.update(fw, Workspace {
        tree: ws.tree.spec_insert(window, ws.focused, o.spec_screen_rect()),
        focused: Some(window),
        ..ws
    })
    &&& f.focused_window == Some(window)
    &&& f.monitors@ == o.monitors@
    &&& f.focused_workspace == o.focused_workspace
    &&& f.focused_monitor == o.focused_monitor
}

/// Managing a new window tiled and then forgetting it gives back the
/// managed windows and the focused workspace's tree as they were, when the
/// tree did not hold the window already.
pub proof fn law_manage_then_unmanage(o: WindowManager, m: WindowManager, f: WindowManager, window: XWindow)
    requires
        o.wf(),
        !o.windows@.contains_key(window),
        !o.workspaces@[o.focused_workspace as int].tree.window_seq().contains(window),
        managed_tiled(o, m, window),
        window_removed(m, f, window),
    ensures
        f.windows@ == o.windows@,
        f.workspaces@[o.focused_workspace as int].tree == o.workspaces@[o.focused_workspace as int].tree,
        f.workspaces@.len() == o.workspaces@.len(),
        forall|j: int| 0 <= j < o.workspaces@.len() && j != o.focused_workspace ==> #[trigger] f.workspaces@[j] == o.workspaces@[j],
{
    let fw = o.focused_workspace as int;
    let ws = o.workspaces@[fw];
    assert(o.workspaces@[fw].wf());
    law_insert_then_remove(ws.tree, window, ws.focused, o.spec_screen_rect());
    assert(m.windows@[window].workspace == fw);
    assert(!m.windows@[window].floating);
    assert(f.windows@ =~= o.windows@);
}

/// The monitor of `ms` assigned workspace `k`.
pub open spec fn holder(n: int, m: int, k: int) -> int {
    ((k + 1) * m - 1) / n
}

proof fn lemma_holder(n: int, m: int, k: int)
    requires
        0 < m,
        0 <= k < n,
    ensures
        0 <= holder(n, m, k) < m,
        range_start(holder(n, m, k), n, m) <= k < range_start(holder(n, m, k) + 1, n, m),
{
    let i = holder(n, m, k);
    let a = (k + 1) * m - 1;
    assert(0 <= a) by (nonlinear_arith)
        requires
            0 < m,
            0 <= k,
            a == (k + 1) * m - 1,
    ;
    assert(a < n * m) by (nonlinear_arith)
        requires
            0 < m,
            k < n,
            a == (k + 1) * m - 1,
    ;
    assert(0 <= i < m) by (nonlinear_arith)
        requires
            0 <= a < n * m,
            0 < n,
            i == a / n,
    ;
    assert(i * n <= a < (i + 1) * n) by (nonlinear_arith)
        requires
            0 <= a,
            0 < n,
            i == a / n,
    ;
    assert(i * n / m <= k) by (nonlinear_arith)
        requires
            0 <= i * n <= (k + 1) * m - 1,
            0 < m,
            0 <= k,
    ;
    assert(k < (i + 1) * n / m) by (nonlinear_arith)
        requires
            (k + 1) * m - 1 < (i + 1) * n,
            0 < m,
            0 <= k,
    ;
}

proof fn lemma_range_start_mono(i: int, j: int, n: int, m: int)
    requires
        0 <= i <= j,
        0 < m,
        0 <= n,
    ensures
        range_start(i, n, m) <= range_start(j, n, m),
{
    assert(i * n <= j * n) by (nonlinear_arith)
        requires
            0 <= i <= j,
            0 <= n,
    ;
    assert(i * n / m <= j * n / m) by (nonlinear_arith)
        requires
            i * n <= j * n,
            0 < m,
    ;
}

/// When the workspaces are handed out to the monitors, each workspace goes
/// to exactly one monitor.
pub proof fn law_assign_partition(ms: Seq<Monitor>, n: int, k: int)
    requires
        ms.len() > 0,
        0 <= k < n <= usize::MAX,
        forall|i: int| 0 <= i < ms.len() ==> assigned(#[trigger] ms[i], i, n, ms.len() as int),
    ensures
        exists|i: int| 0 <= i < ms.len() && (#[trigger] ms[i]).workspaces@.contains(k as usize),
        forall|i: int, j: int| 0 <= i < ms.len() && 0 <= j < ms.len()
            && (#[trigger] ms[i]).workspaces@.contains(k as usize) && (#[trigger] ms[j]).workspaces@.contains(k as usize) ==> i == j,
{
    let m = ms.len() as int;
    let h = holder(n, m, k);
    lemma_holder(n, m, k);
    let r = ms[h].workspaces@;
    assert(assigned(ms[h], h, n, m));
    let s = range_start(h, n, m);
    assert(r == index_range(s, range_start(h + 1, n, m)));
    assert(r[k - s] == k as usize);
    assert(ms[h].workspaces@.contains(k as usize));
    assert forall|i: int, j: int| 0 <= i < ms.len() && 0 <= j < ms.len()
        && (#[trigger] ms[i]).workspaces@.contains(k as usize) && (#[trigger] ms[j]).workspaces@.contains(k as usize) implies i == j by {
        assert(assigned(ms[i], i, n, m));
        assert(assigned(ms[j], j, n, m));
        lemma_in_range(ms[i], i, n, m, k);
        lemma_in_range(ms[j], j, n, m, k);
        if i < j {
            lemma_range_start_mono(i + 1, j, n, m);
        } else if j < i {
            lemma_range_start_mono(j + 1, i, n, m);
        }
    }
}

proof fn lemma_in_range(mon: Monitor, i: int, n: int, m: int, k: int)
    requires
        0 <= i < m,
        0 <= k < n <= usize::MAX,
        assigned(mon, i, n, m),
        mon.workspaces@.contains(k as usize),
    ensures
        range_start(i, n, m) <= k < range_start(i + 1, n, m),
{
    crate::wm::manager::lemma_range_start_bounds(i, n, m);
    let t = choose|t: int| 0 <= t < mon.workspaces@.len() && mon.workspaces@[t] == k as usize;
    let st = range_start(i, n, m);
    assert(mon.workspaces@.len() == range_start(i + 1, n, m) - st);
    assert(mon.workspaces@[t] == (st + t) as usize);
    assert(0 <= st + t < n);
    assert((st + t) as usize == st + t);
    assert(k as usize == k);
}

/// Every monitor is left of or level with the next one.
pub open spec fn ordered_by_x(s: Seq<Monitor>) -> bool {
    forall|a: int, b: int| 0 <= a < b < s.len() ==> (#[trigger] s[a]).geometry.x <= (#[trigger] s[b]).geometry.x
}

proof fn lemma_insert_pos_split(s: Seq<Monitor>, x: i16)
    requires
        ordered_by_x(s),
    ensures
        0 <= insert_pos(s, x) <= s.len(),
        forall|a: int| 0 <= a < insert_pos(s, x) ==> (#[trigger] s[a]).geometry.x <= x,
        forall|a: int| insert_pos(s, x) <= a < s.len() ==> (#[trigger] s[a]).geometry.x > x,
    decreases s.len(),
{
    if s.len() > 0 {
        let t = s.drop_last();
        assert forall|a: int, b: int| 0 <= a < b < t.len() implies (#[trigger] t[a]).geometry.x <= (#[trigger] t[b]).geometry.x by {
            assert(t[a] == s[a] && t[b] == s[b]);
        }
        lemma_insert_pos_split(t, x);
        if s.last().geometry.x <= x {
            assert forall|a: int| 0 <= a < s.len() implies (#[trigger] s[a]).geometry.x <= x by {
                if a < s.len() - 1 {
                    assert(s[a].geometry.x <= s[s.len() - 1].geometry.x);
                }
            }
        } else {
            assert forall|a: int| 0 <= a < insert_pos(s, x) implies (#[trigger] s[a]).geometry.x <= x by {
                assert(s[a] == t[a]);
            }
            assert forall|a: int| insert_pos(s, x) <= a < s.len() implies (#[trigger] s[a]).geometry.x > x by {
                if a < s.len() - 1 {
                    assert(s[a] == t[a]);
                }
            }
        }
    }
}

/// Monitors put in order by position are ordered left to right, and none
/// is lost or added.
pub proof fn law_monitors_ordered(s: Seq<Monitor>)
    ensures
        ordered_by_x(by_position(s)),
        by_position(s).len() == s.len(),
        by_position(s).to_multiset() == s.to_multiset(),
    decreases s.len(),
{
    if s.len() > 0 {
        let t = s.drop_last();
        law_monitors_ordered(t);
        let rest = by_position(t);
        let m = s.last();
        let p = insert_pos(rest, m.geometry.x);
        lemma_insert_pos_split(rest, m.geometry.x);
        let r = rest.insert(p, m);
        assert forall|a: int, b: int| 0 <= a < b < r.len() implies (#[trigger] r[a]).geometry.x <= (#[trigger] r[b]).geometry.x by {
            if b < p {
                assert(r[a] == rest[a] && r[b] == rest[b]);
            } else if b == p {
                assert(r[a] == rest[a]);
            } else if a < p {
                assert(r[a] == rest[a] && r[b] == rest[b - 1]);
            } else if a == p {
                assert(r[b] == rest[b - 1]);
            } else {
                assert(r[a] == rest[a - 1] && r[b] == rest[b - 1]);
            }
        }
        vstd::seq_lib::to_multiset_insert(rest, p, m);
        assert(s =~= t.push(m));
        vstd::seq_lib::to_multiset_build(t, m);
    }
}

} // verus!
