//! Moving windows between workspaces and monitors.
use vstd::prelude::*;
use crate::wm::manager::{
    focus_candidate, rect_center, bump_unmaps, lemma_bump, lemma_bump_room, next_focus, same_place, same_settings, showing_monitor, switched, unmap_room, Effect,
    WindowManager,
};
use crate::wm::tree::{rect_fits, Direction, Node, Rect, XWindow};
use crate::wm::drag::{find_rect, first_rect};
use crate::wm::tree_laws::{
    law_insert_keeps_wf, law_layout_fits, lemma_ratios_in_scale, law_remove_keeps_wf, law_remove_window_order, lemma_remove_first_len,
};
use crate::wm::window::Window;
use crate::wm::workspace::{lemma_without, without, Workspace};
use crate::wm::monitor::Monitor;
use crate::text::{chars_are, chars_of, eq_ignore_ascii_case, lowercase, str_eq_ignore_ascii_case, to_lowercase};

verus! {

broadcast use vstd::std_specs::hash::group_hash_axioms;

/// `ws2` is `ws` with `window` taken off its floating stack (when it
/// floats) or out of its tree, and its focus moved to its first tiled
/// window, else its top floating one.
pub open spec fn took(ws: Workspace, ws2: Workspace, window: XWindow, floating: bool) -> bool {
    &&& ws2.id == ws.id
    &&& ws2.name == ws.name
    &&& ws2.visible == ws.visible
    &&& ws2.last_monitor == ws.last_monitor
    &&& if floating {
        ws2.tree == ws.tree && ws2.floating@ == without(ws.floating@, window)
    } else {
        ws2.tree == ws.tree.spec_remove(window).0 && ws2.floating@ == ws.floating@
    }
    &&& ws2.focused == next_focus(ws2)
}

/// `ws2` is `ws` with `window` put on top of its floating stack (when it
/// floats) or into its tree next to its focused window, laid out in
/// `screen`, and focused.
pub open spec fn placed(ws: Workspace, ws2: Workspace, window: XWindow, floating: bool, screen: Rect) -> bool {
    &&& ws2.id == ws.id
    &&& ws2.name == ws.name
    &&& ws2.visible == ws.visible
    &&& ws2.last_monitor == ws.last_monitor
    &&& if floating {
        &&& ws2.tree == ws.tree
        &&& ws2.floating@ == (if ws.floating@.contains(window) { ws.floating@ } else { ws.floating@.push(window) })
    } else {
        ws2.tree == ws.tree.spec_insert(window, ws.focused, screen) && ws2.floating@ == ws.floating@
    }
    &&& ws2.focused == Some(window)
}

/// Only workspace `i` differs between `a` and `b`.
pub open spec fn only_changed(a: Seq<Workspace>, b: Seq<Workspace>, i: int) -> bool {
    &&& a.len() == b.len()
    &&& forall|j: int| 0 <= j < a.len() && j != i ==> #[trigger] b[j] == a[j]
}

/// The fields other than the workspaces and windows are unchanged.
pub open spec fn same_frame(a: WindowManager, b: WindowManager) -> bool {
    &&& a.monitors@ == b.monitors@
    &&& a.focused_workspace == b.focused_workspace
    &&& a.focused_monitor == b.focused_monitor
    &&& a.focused_window == b.focused_window
    &&& a.config == b.config
    &&& a.root == b.root
    &&& a.screen_width == b.screen_width
    &&& a.screen_height == b.screen_height
    &&& a.running == b.running
}

/// State `m` is state `o` with the focused `window` moved from workspace
/// `cur` to workspace `idx` (laid out in `screen`), recorded as on `idx`,
/// and counted as unmapped once more when no monitor shows `idx`.
pub open spec fn moved_state(o: WindowManager, m: WindowManager, window: XWindow, idx: int, cur: int, floating: bool, screen: Rect) -> bool {
    let base = if o.windows@.contains_key(window) {
        o.windows@.insert(window, Window { workspace: idx as usize, ..o.windows@[window] })
    } else {
        o.windows@
    };
    &&& same_frame(o, m)
    &&& m.workspaces@.len() == o.workspaces@.len()
    &&& forall|j: int| 0 <= j < o.workspaces@.len() && j != cur && j != idx ==> #[trigger] m.workspaces@[j] == o.workspaces@[j]
    &&& took(o.workspaces@[cur], m.workspaces@[cur], window, floating)
    &&& placed(o.workspaces@[idx], m.workspaces@[idx], window, floating, screen)
    &&& m.windows@ == (if showing_monitor(o.monitors@, idx as usize) is Some { base } else { bump_unmaps(base, seq![window]) })
}

/// What a move tells the X server before the focus is settled: the
/// window's new desktop, then mapping it when a monitor shows its new
/// workspace and unmapping it otherwise, then a new layout.
pub open spec fn move_effects(window: XWindow, idx: usize, visible: bool) -> Seq<Effect> {
    seq![
        Effect::SetWindowDesktop(window, idx as u32),
        if visible { Effect::MapWindow(window) } else { Effect::UnmapWindow(window) },
        Effect::ApplyLayout,
    ]
}

/// The workspace the focused window is on, as recorded, else the focused one.
pub open spec fn window_workspace(o: WindowManager, window: XWindow) -> int {
    if o.windows@.contains_key(window) {
        o.windows@[window].workspace as int
    } else {
        o.focused_workspace as int
    }
}

/// Whether the window floats, as recorded (a window not recorded does not).
pub open spec fn window_floats(o: WindowManager, window: XWindow) -> bool {
    o.windows@.contains_key(window) && o.windows@[window].floating
}

/// The monitor geometry a window moved to workspace `idx` is laid out in:
/// that of the monitor showing `idx`, else the focused monitor's.
pub open spec fn target_screen(o: WindowManager, idx: usize) -> Rect {
    match showing_monitor(o.monitors@, idx) {
        Some(m) => o.monitors@[m].geometry,
        None => o.spec_screen_rect(),
    }
}

/// Moving the focused window of `o` to workspace `idx` (see
/// `WindowManager::move_to_workspace`) gives `f` and `effects`.
pub open spec fn moved_to_workspace(o: WindowManager, f: WindowManager, idx: usize, effects: Seq<Effect>) -> bool {
    let window = o.focused_window->0;
    let cur = window_workspace(o, window);
    if idx >= o.workspaces@.len() || o.focused_window is None || idx == cur {
        &&& f == o
        &&& effects.len() == 0
    } else {
        let visible = showing_monitor(o.monitors@, idx) is Some;
        let prefix = move_effects(window, idx, visible);
        &&& same_settings(o, f)
        &&& exists|m: WindowManager| {
            &&& #[trigger] moved_state(o, m, window, idx as int, cur, window_floats(o, window), target_screen(o, idx))
            &&& effects.subrange(0, 3) =~= prefix
            &&& effects.len() >= 3
            &&& if o.config.follow_window_on_move {
                switched(m, f, idx, true, effects.subrange(3, effects.len() as int))
            } else if cur == o.focused_workspace {
                let nf = next_focus(m.workspaces@[cur]);
                &&& f.workspaces@ =~= m.workspaces@
                &&& f.windows@ =~= m.windows@
                &&& f.monitors@ =~= m.monitors@
                &&& f.focused_workspace == m.focused_workspace
                &&& f.focused_monitor == m.focused_monitor
                &&& f.focused_window == nf
                &&& effects.subrange(3, effects.len() as int) =~= (match nf {
                    Some(w) => seq![Effect::Focus(w, true)],
                    None => seq![Effect::ClearActiveWindow],
                })
            } else {
                &&& f.workspaces@ =~= m.workspaces@
                &&& f.windows@ =~= m.windows@
                &&& f.monitors@ =~= m.monitors@
                &&& f.focused_workspace == m.focused_workspace
                &&& f.focused_monitor == m.focused_monitor
                &&& f.focused_window == m.focused_window
                &&& effects.len() == 3
            }
        }
    }
}

proof fn lemma_took_len(ws: Workspace, ws2: Workspace, window: XWindow, floating: bool)
    requires
        took(ws, ws2, window, floating),
    ensures
        ws2.window_seq().len() <= ws.window_seq().len(),
{
    if floating {
        lemma_without(ws.floating@, window);
    } else {
        law_remove_window_order(ws.tree, window);
        lemma_remove_first_len(ws.tree.window_seq(), window);
    }
}

impl WindowManager {
    /// Take `window` off workspace `i` and move that workspace's focus on;
    /// returns the window it focuses now.
    fn take_from(&mut self, window: XWindow, i: usize, floating: bool) -> (next: Option<XWindow>)
        requires
            old(self).wf(),
            i < old(self).workspaces@.len(),
        ensures
            final(self).wf(),
            same_frame(*old(self), *final(self)),
            final(self).windows@ == old(self).windows@,
            only_changed(old(self).workspaces@, final(self).workspaces@, i as int),
            took(old(self).workspaces@[i as int], final(self).workspaces@[i as int], window, floating),
            next == final(self).workspaces@[i as int].focused,
    {
        let ghost pre = self.workspaces@;
        if floating {
            self.workspaces[i].remove_floating(window);
            proof {
                lemma_without(pre[i as int].floating@, window);
            }
        } else {
            proof {
                law_remove_keeps_wf(pre[i as int].tree, window);
            }
            self.workspaces[i].tree.remove(window);
        }
        let next = match self.workspaces[i].tree.first_window() {
            Some(w) => Some(w),
            None => {
                let n = self.workspaces[i].floating.len();
                if n > 0 {
                    Some(self.workspaces[i].floating[n - 1])
                } else {
                    None
                }
            },
        };
        self.workspaces[i].focused = next;
        proof {
            assert forall|j: int| 0 <= j < self.workspaces@.len() implies (#[trigger] self.workspaces@[j]).wf() by {
                if j != i {
                    assert(self.workspaces@[j] == pre[j]);
                }
            }
            assert forall|j: int| 0 <= j < pre.len() && j != i implies #[trigger] self.workspaces@[j] == pre[j] by {
            }
        }
        next
    }

    /// Put `window` on workspace `i` (see `placed`).
    fn place_on(&mut self, window: XWindow, i: usize, floating: bool, screen: Rect)
        requires
            old(self).wf(),
            i < old(self).workspaces@.len(),
            rect_fits(screen),
        ensures
            final(self).wf(),
            same_frame(*old(self), *final(self)),
            final(self).windows@ == old(self).windows@,
            only_changed(old(self).workspaces@, final(self).workspaces@, i as int),
            placed(old(self).workspaces@[i as int], final(self).workspaces@[i as int], window, floating, screen),
    {
        let ghost pre = self.workspaces@;
        if floating {
            self.workspaces[i].add_floating(window);
        } else {
            let target = self.workspaces[i].focused;
            proof {
                lemma_ratios_in_scale(pre[i as int].tree);
                law_layout_fits(pre[i as int].tree, screen, target);
                law_insert_keeps_wf(pre[i as int].tree, window, target, screen);
            }
            self.workspaces[i].tree.insert_with_rect(window, target, screen);
        }
        self.workspaces[i].focused = Some(window);
        proof {
            assert forall|j: int| 0 <= j < self.workspaces@.len() implies (#[trigger] self.workspaces@[j]).wf() by {
                if j != i {
                    assert(self.workspaces@[j] == pre[j]);
                }
            }
            assert forall|j: int| 0 <= j < pre.len() && j != i implies #[trigger] self.workspaces@[j] == pre[j] by {
            }
        }
    }
}

impl WindowManager {
    /// Record `window` as on workspace `idx`.
    fn record_workspace(&mut self, window: XWindow, idx: usize)
        requires
            old(self).wf(),
            idx < old(self).workspaces@.len(),
        ensures
            final(self).wf(),
            same_frame(*old(self), *final(self)),
            final(self).workspaces@ == old(self).workspaces@,
            final(self).windows@ == (if old(self).windows@.contains_key(window) {
                old(self).windows@.insert(window, Window { workspace: idx, ..old(self).windows@[window] })
            } else {
                old(self).windows@
            }),
    {
        if self.windows.contains_key(&window) {
            let removed = self.windows.remove(&window);
            if let Some(mut win) = removed {
                win.workspace = idx;
                self.windows.insert(window, win);
            }
            proof {
                assert(self.windows@ =~= old(self).windows@.insert(window, Window { workspace: idx, ..old(self).windows@[window] }));
            }
        }
    }

    /// Count one more unmap of `window` to ignore.
    fn count_unmap(&mut self, window: XWindow)
        requires
            old(self).wf(),
            unmap_room(old(self).windows@, 1),
        ensures
            final(self).wf(),
            same_frame(*old(self), *final(self)),
            final(self).workspaces@ == old(self).workspaces@,
            final(self).windows@ == bump_unmaps(old(self).windows@, seq![window]),
    {
        let ghost base = self.windows@;
        if self.windows.contains_key(&window) {
            let removed = self.windows.remove(&window);
            if let Some(mut win) = removed {
                win.ignore_unmap_count = win.ignore_unmap_count + 1;
                self.windows.insert(window, win);
            }
        }
        proof {
            assert(seq![window].drop_last() =~= Seq::<XWindow>::empty());
            assert(bump_unmaps(base, Seq::<XWindow>::empty()) == base);
            assert(seq![window].last() == window);
            assert(self.windows@ =~= bump_unmaps(base, seq![window]));
            lemma_bump(base, seq![window]);
        }
    }

    /// Move `window` from workspace `cur` to workspace `idx` (see
    /// `moved_state`) and return whether a monitor shows `idx`.
    #[verifier::rlimit(40)]
    fn shift_window(&mut self, window: XWindow, idx: usize, cur: usize, floating: bool, effects: &mut Vec<Effect>) -> (visible: bool)
        requires
            old(self).wf(),
            idx < old(self).workspaces@.len(),
            cur < old(self).workspaces@.len(),
            idx != cur,
            unmap_room(old(self).windows@, 1),
        ensures
            final(self).wf(),
            visible == (showing_monitor(old(self).monitors@, idx) is Some),
            moved_state(*old(self), *final(self), window, idx as int, cur as int, floating, target_screen(*old(self), idx)),
            final(effects)@ == old(effects)@ + move_effects(window, idx, visible),
            final(self).workspaces@[cur as int].focused == next_focus(final(self).workspaces@[cur as int]),
    {
        let ghost o = *self;
        let ghost e0 = effects@;
        self.take_from(window, cur, floating);
        let ghost s1 = *self;
        self.record_workspace(window, idx);
        let ghost base = self.windows@;
        effects.push(Effect::SetWindowDesktop(window, idx as u32));
        let visible_on = self.showing_monitor_of(idx);
        let screen = match visible_on {
            Some(m) => self.monitors[m].geometry,
            None => self.screen_rect(),
        };
        self.place_on(window, idx, floating, screen);
        if visible_on.is_some() {
            effects.push(Effect::MapWindow(window));
        } else {
            self.count_unmap(window);
            effects.push(Effect::UnmapWindow(window));
        }
        effects.push(Effect::ApplyLayout);
        proof {
            assert(effects@ =~= e0 + move_effects(window, idx, visible_on is Some));
            assert(self.workspaces@[cur as int] == s1.workspaces@[cur as int]);
            assert(s1.workspaces@[idx as int] == o.workspaces@[idx as int]);
            assert(same_frame(o, *self));
            assert(took(o.workspaces@[cur as int], self.workspaces@[cur as int], window, floating));
            assert(placed(o.workspaces@[idx as int], self.workspaces@[idx as int], window, floating, screen));
            assert(screen == target_screen(o, idx));
            assert forall|j: int| 0 <= j < o.workspaces@.len() && j != cur && j != idx implies #[trigger] self.workspaces@[j] == o.workspaces@[j] by {
                assert(s1.workspaces@[j] == o.workspaces@[j]);
            }
        }
        visible_on.is_some()
    }

    /// Move the focused window to workspace `idx`, where it becomes the
    /// focused window; it is mapped when a monitor shows `idx` and unmapped
    /// otherwise. With `follow_window_on_move` set, workspace `idx` is then
    /// shown (see `switch_workspace`); otherwise, when the window left the
    /// focused workspace, the focus goes to what that workspace focuses
    /// now. Nothing happens when `idx` is out of range, no window has the
    /// focus, or the window is on `idx` already.
    pub fn move_to_workspace(&mut self, idx: usize) -> (effects: Vec<Effect>)
        requires
            old(self).wf(),
            old(self).spec_unmap_room(1 + old(self).shown_window_count()),
        ensures
            final(self).wf(),
            moved_to_workspace(*old(self), *final(self), idx, effects@),
    {
        let mut effects: Vec<Effect> = Vec::new();
        if idx >= self.workspaces.len() {
            return effects;
        }
        let window = match self.focused_window {
            Some(w) => w,
            None => {
                return effects;
            },
        };
        let (cur, floating) = match self.windows.get(&window) {
            Some(win) => (win.workspace, win.floating),
            None => (self.focused_workspace, false),
        };
        if idx == cur {
            return effects;
        }
        let ghost o = *self;
        let visible = self.shift_window(window, idx, cur, floating, &mut effects);
        let ghost mid = *self;
        let ghost prefix = effects@;
        assert(prefix =~= move_effects(window, idx, visible));
        if self.config.follow_window_on_move {
            proof {
                if !visible {
                    let base = if o.windows@.contains_key(window) {
                        o.windows@.insert(window, Window { workspace: idx as usize, ..o.windows@[window] })
                    } else {
                        o.windows@
                    };
                    assert(unmap_room(base, 1 + o.shown_window_count())) by {
                        assert forall|w: XWindow| #[trigger] base.contains_key(w) implies base[w].ignore_unmap_count
                            + 1 + o.shown_window_count() <= u32::MAX by {
                            if w != window {
                                assert(base[w] == o.windows@[w]);
                            }
                        }
                    }
                    lemma_bump_room(base, seq![window], o.shown_window_count());
                    let shown = o.monitors@[o.focused_monitor as int].active_workspace as int;
                    assert(shown != idx);
                    if shown == cur {
                        lemma_took_len(o.workspaces@[cur as int], mid.workspaces@[cur as int], window, floating);
                    } else {
                        assert(mid.workspaces@[shown] == o.workspaces@[shown]);
                    }
                }
            }
            let mut e = self.switch_workspace(idx);
            let ghost ev = e@;
            effects.append(&mut e);
            proof {
                assert(effects@.subrange(0, 3) =~= prefix.subrange(0, 3));
                assert(effects@.subrange(3, effects@.len() as int) =~= ev);
            }
        } else if cur == self.focused_workspace {
            let nf = self.workspaces[cur].focused;
            self.focused_window = nf;
            match nf {
                Some(f) => {
                    let mut e = self.set_focus(f, true);
                    effects.append(&mut e);
                    assert(effects@.subrange(3, effects@.len() as int) =~= seq![Effect::Focus(f, true)]);
                },
                None => {
                    effects.push(Effect::ClearActiveWindow);
                    assert(effects@.subrange(3, effects@.len() as int) =~= seq![Effect::ClearActiveWindow]);
                },
            }
            proof {
                assert(effects@.subrange(0, 3) =~= prefix.subrange(0, 3));
                assert(self.workspaces@ =~= mid.workspaces@);
            }
        }
        proof {
            assert(effects@.subrange(0, 3) =~= move_effects(window, idx, visible));
            assert(floating == window_floats(o, window));
            assert(cur as int == window_workspace(o, window));
            assert(moved_state(o, mid, window, idx as int, window_workspace(o, window), window_floats(o, window), target_screen(o, idx)));
        }
        effects
    }
}

/// The first monitor named `name`, ASCII case ignored.
pub open spec fn monitor_named(monitors: Seq<Monitor>, name: Seq<char>) -> Option<int> {
    if exists|i: int| 0 <= i < monitors.len() && eq_ignore_ascii_case(#[trigger] monitors[i].name@, name) {
        Some(choose|i: int| 0 <= i < monitors.len() && eq_ignore_ascii_case(#[trigger] monitors[i].name@, name)
            && forall|j: int| 0 <= j < i ==> !eq_ignore_ascii_case(#[trigger] monitors[j].name@, name))
    } else {
        None
    }
}

/// The monitor a target names: `next` or `right` after the focused one,
/// `prev` or `left` before it (both wrapping around), else a monitor name;
/// case is ignored.
pub open spec fn monitor_target(monitors: Seq<Monitor>, focused: int, target: Seq<char>) -> Option<int> {
    lower_monitor_target(monitors, focused, lowercase(target))
}

/// The monitor a target already in lower case names (see `monitor_target`).
pub open spec fn lower_monitor_target(monitors: Seq<Monitor>, focused: int, t: Seq<char>) -> Option<int> {
    let n = monitors.len() as int;
    if t == "next"@ || t == "right"@ {
        Some((focused + 1) % n)
    } else if t == "prev"@ || t == "left"@ {
        Some(if focused == 0 { n - 1 } else { focused - 1 })
    } else {
        monitor_named(monitors, t)
    }
}

/// Focusing monitor `t` from `o` gives `f` and `effects`: the monitor and
/// its workspace get the focus, and so does that workspace's candidate
/// window; without one the pointer goes to the monitor's center.
pub open spec fn focused_monitor_state(o: WindowManager, f: WindowManager, t: int, effects: Seq<Effect>) -> bool {
    let ws = o.monitors@[t].active_workspace;
    let c = focus_candidate(o.workspaces@[ws as int]);
    &&& f.focused_monitor == t
    &&& f.focused_workspace == ws
    &&& f.focused_window == c
    &&& f.monitors@ =~= o.monitors@
    &&& f.windows@ =~= o.windows@
    &&& same_settings(o, f)
    &&& f.workspaces@ =~= (match c {
        Some(w) => o.workspaces@.update(ws as int, Workspace { focused: Some(w), ..o.workspaces@[ws as int] }),
        None => o.workspaces@,
    })
    &&& effects =~= (match c {
        Some(w) => seq![Effect::Focus(w, true)],
        None => seq![Effect::WarpPointer(rect_center(o.monitors@[t].geometry).0, rect_center(o.monitors@[t].geometry).1)],
    })
}

/// `WindowManager::focus_monitor` from `o` gives `f` and `effects`.
pub open spec fn focused_monitor_by(o: WindowManager, f: WindowManager, target: Seq<char>, effects: Seq<Effect>) -> bool {
    let t = monitor_target(o.monitors@, o.focused_monitor as int, target);
    if o.monitors@.len() <= 1 || t is None || t == Some(o.focused_monitor as int) {
        f == o && effects.len() == 0
    } else {
        focused_monitor_state(o, f, t->0, effects)
    }
}

/// `WindowManager::focus_adjacent_monitor` from `o` gives `f` and
/// `effects`: the monitor beside the focused one toward `direction`, if
/// there is one, gets the focus.
pub open spec fn adjacent_monitor_focused(o: WindowManager, f: WindowManager, direction: Direction, effects: Seq<Effect>) -> bool {
    let fm = o.focused_monitor as int;
    let n = o.monitors@.len() as int;
    if n <= 1 || direction == Direction::Up || direction == Direction::Down
        || (direction == Direction::Left && fm == 0) || (direction == Direction::Right && fm >= n - 1) {
        f == o && effects.len() == 0
    } else {
        focused_monitor_state(o, f, if direction == Direction::Left { fm - 1 } else { fm + 1 }, effects)
    }
}

impl WindowManager {
    /// The monitor `target` names (see `monitor_target`).
    pub fn resolve_monitor(&self, target: &str) -> (r: Option<usize>)
        requires
            self.wf(),
        ensures
            r matches Some(i) ==> i < self.monitors@.len() && monitor_target(self.monitors@, self.focused_monitor as int, target@) == Some(i as int),
            r is None <==> monitor_target(self.monitors@, self.focused_monitor as int, target@) is None,
    {
        let lower = to_lowercase(target);
        self.resolve_lower_monitor(lower.as_str())
    }

    /// The monitor a target already in lower case names (see
    /// `lower_monitor_target`).
    pub fn resolve_lower_monitor(&self, lower: &str) -> (r: Option<usize>)
        requires
            self.wf(),
        ensures
            r matches Some(i) ==> i < self.monitors@.len() && lower_monitor_target(self.monitors@, self.focused_monitor as int, lower@) == Some(i as int),
            r is None <==> lower_monitor_target(self.monitors@, self.focused_monitor as int, lower@) is None,
    {
        let l = chars_of(lower);
        let n = self.monitors.len();
        if chars_are(l.as_slice(), "next") || chars_are(l.as_slice(), "right") {
            Some((self.focused_monitor + 1) % n)
        } else if chars_are(l.as_slice(), "prev") || chars_are(l.as_slice(), "left") {
            if self.focused_monitor == 0 {
                Some(n - 1)
            } else {
                Some(self.focused_monitor - 1)
            }
        } else {
            let mut i: usize = 0;
            while i < n
                invariant
                    n == self.monitors@.len(),
                                        lower@ != "next"@ && lower@ != "right"@,
                    lower@ != "prev"@ && lower@ != "left"@,
                    i <= n,
                    forall|j: int| 0 <= j < i ==> !eq_ignore_ascii_case(#[trigger] self.monitors@[j].name@, lower@),
                decreases n - i,
            {
                if str_eq_ignore_ascii_case(self.monitors[i].name.as_str(), lower) {
                    proof {
                        let name = lower@;
                        assert(eq_ignore_ascii_case(self.monitors@[i as int].name@, name));
                        let c = choose|c: int| 0 <= c < self.monitors@.len() && eq_ignore_ascii_case(#[trigger] self.monitors@[c].name@, name)
                            && forall|j: int| 0 <= j < c ==> !eq_ignore_ascii_case(#[trigger] self.monitors@[j].name@, name);
                        assert(c == i) by {
                            if c > i {
                                assert(!eq_ignore_ascii_case(self.monitors@[i as int].name@, name));
                            }
                        }
                        assert(monitor_named(self.monitors@, name) == Some(i as int));
                        assert(name != "next"@ && name != "right"@ && name != "prev"@ && name != "left"@);
                    }
                    return Some(i);
                }
                i = i + 1;
            }
            None
        }
    }

    /// Give the focus to monitor `t`, its workspace and that workspace's
    /// candidate window (see `focused_monitor_state`).
    fn focus_monitor_index(&mut self, t: usize) -> (effects: Vec<Effect>)
        requires
            old(self).wf(),
            t < old(self).monitors@.len(),
        ensures
            final(self).wf(),
            focused_monitor_state(*old(self), *final(self), t as int, effects@),
    {
        self.focused_monitor = t;
        let ws = self.monitors[t].active_workspace;
        self.focused_workspace = ws;
        match self.focus_candidate_of(ws) {
            Some(w) => self.set_focus(w, true),
            None => {
                self.focused_window = None;
                let mut effects: Vec<Effect> = Vec::new();
                let g = self.monitors[t].geometry;
                let cx = (g.x as i32 + (g.width / 2) as i32) as i16;
                let cy = (g.y as i32 + (g.height / 2) as i32) as i16;
                effects.push(Effect::WarpPointer(cx, cy));
                effects
            },
        }
    }

    /// Focus the monitor `target` names (see `monitor_target`). Nothing
    /// happens with a single monitor, an unknown name, or the focused monitor.
    pub fn focus_monitor(&mut self, target: &str) -> (effects: Vec<Effect>)
        requires
            old(self).wf(),
        ensures
            final(self).wf(),
            focused_monitor_by(*old(self), *final(self), target@, effects@),
    {
        if self.monitors.len() <= 1 {
            return Vec::new();
        }
        match self.resolve_monitor(target) {
            None => Vec::new(),
            Some(t) => {
                if t == self.focused_monitor {
                    Vec::new()
                } else {
                    self.focus_monitor_index(t)
                }
            },
        }
    }

    /// Focus the monitor beside the focused one toward `direction`, without
    /// wrapping around; up and down do nothing, nor does a single monitor.
    pub fn focus_adjacent_monitor(&mut self, direction: Direction) -> (effects: Vec<Effect>)
        requires
            old(self).wf(),
        ensures
            final(self).wf(),
            adjacent_monitor_focused(*old(self), *final(self), direction, effects@),
    {
        if self.monitors.len() <= 1 {
            return Vec::new();
        }
        let fm = self.focused_monitor;
        match direction {
            Direction::Left => {
                if fm == 0 {
                    Vec::new()
                } else {
                    self.focus_monitor_index(fm - 1)
                }
            },
            Direction::Right => {
                if fm >= self.monitors.len() - 1 {
                    Vec::new()
                } else {
                    self.focus_monitor_index(fm + 1)
                }
            },
            _ => Vec::new(),
        }
    }
}

/// `ws2` is `ws` with `window` taken off its floating stack (when it
/// floats) or out of its tree, its focus untouched.
pub open spec fn removed(ws: Workspace, ws2: Workspace, window: XWindow, floating: bool) -> bool {
    &&& ws2.id == ws.id
    &&& ws2.name == ws.name
    &&& ws2.visible == ws.visible
    &&& ws2.last_monitor == ws.last_monitor
    &&& if floating {
        ws2.tree == ws.tree && ws2.floating@ == without(ws.floating@, window)
    } else {
        ws2.tree == ws.tree.spec_remove(window).0 && ws2.floating@ == ws.floating@
    }
    &&& ws2.focused == ws.focused
}

/// The windows' map with `window` recorded as on workspace `idx`.
pub open spec fn recorded_on(m: Map<XWindow, Window>, window: XWindow, idx: usize) -> Map<XWindow, Window> {
    if m.contains_key(window) {
        m.insert(window, Window { workspace: idx, ..m[window] })
    } else {
        m
    }
}

/// Moving the focused window of `o` to monitor `t` gives `f`: it leaves
/// the focused workspace, joins the workspace `t` shows (laid out in `t`'s
/// geometry), and it, `t` and that workspace get the focus.
pub open spec fn moved_to_monitor_state(o: WindowManager, f: WindowManager, t: int, effects: Seq<Effect>) -> bool {
    let w = o.focused_window->0;
    let fl = window_floats(o, w);
    let fw = o.focused_workspace as int;
    let tw = o.monitors@[t].active_workspace as int;
    &&& exists|ws1: Workspace| {
        &&& #[trigger] removed(o.workspaces@[fw], ws1, w, fl)
        &&& placed(if tw == fw { ws1 } else { o.workspaces@[tw] }, f.workspaces@[tw], w, fl, o.monitors@[t].geometry)
        &&& tw != fw ==> f.workspaces@[fw] == ws1
    }
    &&& f.workspaces@.len() == o.workspaces@.len()
    &&& forall|j: int| 0 <= j < o.workspaces@.len() && j != fw && j != tw ==> #[trigger] f.workspaces@[j] == o.workspaces@[j]
    &&& f.windows@ =~= recorded_on(o.windows@, w, tw as usize)
    &&& f.monitors@ =~= o.monitors@
    &&& same_settings(o, f)
    &&& f.focused_monitor == t
    &&& f.focused_workspace == tw
    &&& f.focused_window == Some(w)
    &&& effects =~= seq![Effect::SetWindowDesktop(w, tw as u32), Effect::ApplyLayout, Effect::Focus(w, true)]
}

/// `WindowManager::move_to_monitor` from `o` gives `f` and `effects`.
pub open spec fn moved_to_monitor(o: WindowManager, f: WindowManager, target: Seq<char>, effects: Seq<Effect>) -> bool {
    let t = monitor_target(o.monitors@, o.focused_monitor as int, target);
    if o.monitors@.len() <= 1 || o.focused_window is None || t is None
        || t == Some(o.focused_monitor as int) {
        f == o && effects.len() == 0
    } else {
        moved_to_monitor_state(o, f, t->0, effects)
    }
}

impl WindowManager {
    /// Take `window` off workspace `i`, leaving its focus as it is.
    fn remove_from(&mut self, window: XWindow, i: usize, floating: bool)
        requires
            old(self).wf(),
            i < old(self).workspaces@.len(),
        ensures
            final(self).wf(),
            same_frame(*old(self), *final(self)),
            final(self).windows@ == old(self).windows@,
            only_changed(old(self).workspaces@, final(self).workspaces@, i as int),
            removed(old(self).workspaces@[i as int], final(self).workspaces@[i as int], window, floating),
    {
        let ghost pre = self.workspaces@;
        if floating {
            self.workspaces[i].remove_floating(window);
            proof {
                lemma_without(pre[i as int].floating@, window);
            }
        } else {
            proof {
                law_remove_keeps_wf(pre[i as int].tree, window);
            }
            self.workspaces[i].tree.remove(window);
        }
        proof {
            assert forall|j: int| 0 <= j < self.workspaces@.len() implies (#[trigger] self.workspaces@[j]).wf() by {
                if j != i {
                    assert(self.workspaces@[j] == pre[j]);
                }
            }
            assert forall|j: int| 0 <= j < pre.len() && j != i implies #[trigger] self.workspaces@[j] == pre[j] by {
            }
        }
    }

    /// Move the focused window to the workspace the monitor `target` names
    /// shows (see `moved_to_monitor_state`). Nothing happens with a single
    /// monitor, without a focused window, with an unknown name, or when
    /// `target` is the focused monitor.
    pub fn move_to_monitor(&mut self, target: &str) -> (effects: Vec<Effect>)
        requires
            old(self).wf(),
        ensures
            final(self).wf(),
            moved_to_monitor(*old(self), *final(self), target@, effects@),
    {
        if self.monitors.len() <= 1 {
            return Vec::new();
        }
        let window = match self.focused_window {
            Some(w) => w,
            None => {
                return Vec::new();
            },
        };
        let t = match self.resolve_monitor(target) {
            Some(t) => t,
            None => {
                return Vec::new();
            },
        };
        if t == self.focused_monitor {
            return Vec::new();
        }
        let floating = match self.windows.get(&window) {
            Some(win) => win.floating,
            None => false,
        };
        let tw = self.monitors[t].active_workspace;
        let fw = self.focused_workspace;
        let geometry = self.monitors[t].geometry;
        let ghost o = *self;
        self.remove_from(window, fw, floating);
        let ghost s1 = *self;
        self.record_workspace(window, tw);
        self.place_on(window, tw, floating, geometry);
        let mut effects: Vec<Effect> = Vec::new();
        effects.push(Effect::SetWindowDesktop(window, tw as u32));
        self.focused_monitor = t;
        self.focused_workspace = tw;
        effects.push(Effect::ApplyLayout);
        let ghost s3 = *self;
        let mut e = self.set_focus(window, true);
        effects.append(&mut e);
        proof {
            assert(self.workspaces@ =~= s3.workspaces@);
            let ws1 = s1.workspaces@[fw as int];
            assert(removed(o.workspaces@[fw as int], ws1, window, floating));
            assert(floating == window_floats(o, window));
            assert forall|j: int| 0 <= j < o.workspaces@.len() && j != fw && j != tw implies #[trigger] self.workspaces@[j] == o.workspaces@[j] by {
                assert(s1.workspaces@[j] == o.workspaces@[j]);
            }
            if tw != fw {
                assert(s1.workspaces@[tw as int] == o.workspaces@[tw as int]);
            }
        }
        effects
    }
}

/// The floating window after the focused one in the focused workspace's
/// stack (wrapping around), or its bottom one when the focused window does
/// not float there.
pub open spec fn next_floating(stack: Seq<XWindow>, focused: Option<XWindow>) -> XWindow {
    let pos = match focused {
        Some(w) => stack.index_of_first(w),
        None => None,
    };
    match pos {
        Some(i) => stack[(i + 1) % (stack.len() as int)],
        None => stack[0],
    }
}

/// The first position of `w` in `v`.
pub fn position_of(v: &Vec<XWindow>, w: XWindow) -> (r: Option<usize>)
    ensures
        r == (match v@.index_of_first(w) {
            Some(i) => Some(i as usize),
            None => None::<usize>,
        }),
        r matches Some(i) ==> i < v@.len(),
{
    proof {
        v@.index_of_first_ensures(w);
    }
    let mut i: usize = 0;
    while i < v.len()
        invariant
            i <= v@.len(),
            forall|j: int| 0 <= j < i ==> v@[j] != w,
            match v@.index_of_first(w) {
                Some(k) => i <= k < v@.len() && v@[k] == w && forall|j: int| 0 <= j < k ==> v@[j] != w,
                None => !v@.contains(w),
            },
        decreases v@.len() - i,
    {
        if v[i] == w {
            assert(v@.contains(w)) by {
                assert(v@[i as int] == w);
            }
            return Some(i);
        }
        i = i + 1;
    }
    proof {
        if v@.contains(w) {
            let k = v@.index_of_first(w)->0;
        }
    }
    None
}

/// `WindowManager::cycle_floating` from `o` gives `f` and `effects`.
pub open spec fn cycled_floating(o: WindowManager, f: WindowManager, effects: Seq<Effect>) -> bool {
    let fw = o.focused_workspace as int;
    let stack = o.workspaces@[fw].floating@;
    if stack.len() == 0 {
        f == o && effects.len() == 0
    } else {
        let next = next_floating(stack, o.focused_window);
        &&& f.focused_window == Some(next)
        &&& f.workspaces@[fw].focused == Some(next)
        &&& f.workspaces@[fw].floating@ == stack.remove(stack.index_of_first(next)->0).push(next)
        &&& f.workspaces@[fw].tree == o.workspaces@[fw].tree
        &&& same_place(o.workspaces@[fw], f.workspaces@[fw])
        &&& same_settings(o, f)
        &&& only_changed(o.workspaces@, f.workspaces@, fw)
        &&& f.windows@ =~= o.windows@
        &&& f.monitors@ =~= o.monitors@
        &&& f.focused_workspace == o.focused_workspace
        &&& f.focused_monitor == o.focused_monitor
        &&& effects =~= seq![Effect::Focus(next, true), Effect::Raise(next)]
    }
}

impl WindowManager {
    /// Raise `window` to the top of the focused workspace's floating stack
    /// (if it is on it) and on screen.
    pub fn raise_window(&mut self, window: XWindow) -> (effects: Vec<Effect>)
        requires
            old(self).wf(),
        ensures
            final(self).wf(),
            same_frame(*old(self), *final(self)),
            final(self).windows@ == old(self).windows@,
            only_changed(old(self).workspaces@, final(self).workspaces@, old(self).focused_workspace as int),
            ({
                let ws = old(self).workspaces@[old(self).focused_workspace as int];
                let ws2 = final(self).workspaces@[old(self).focused_workspace as int];
                &&& ws2.tree == ws.tree
                &&& ws2.focused == ws.focused
                &&& ws2.name == ws.name
                &&& ws2.id == ws.id
                &&& ws2.visible == ws.visible
                &&& ws2.last_monitor == ws.last_monitor
                &&& ws2.floating@ == (match ws.floating@.index_of_first(window) {
                    Some(i) => ws.floating@.remove(i).push(window),
                    None => ws.floating@,
                })
            }),
            effects@ == seq![Effect::Raise(window)],
    {
        let fw = self.focused_workspace;
        let ghost pre = self.workspaces@;
        proof {
            pre[fw as int].floating@.index_of_first_ensures(window);
        }
        self.workspaces[fw].raise_floating(window);
        proof {
            let s = pre[fw as int].floating@;
            let s2 = self.workspaces@[fw as int].floating@;
            assert(s2.no_duplicates()) by {
                if let Some(i) = s.index_of_first(window) {
                    assert forall|a: int, b: int| 0 <= a < b < s2.len() implies s2[a] != s2[b] by {
                        let r = s.remove(i);
                        if b == s2.len() - 1 {
                            assert(s2[b] == window);
                            if a < i {
                                assert(s2[a] == s[a]);
                            } else {
                                assert(s2[a] == s[a + 1]);
                            }
                        } else {
                            if a < i {
                                assert(s2[a] == s[a]);
                            } else {
                                assert(s2[a] == s[a + 1]);
                            }
                            if b < i {
                                assert(s2[b] == s[b]);
                            } else {
                                assert(s2[b] == s[b + 1]);
                            }
                        }
                    }
                }
            }
            assert forall|j: int| 0 <= j < self.workspaces@.len() implies (#[trigger] self.workspaces@[j]).wf() by {
                if j != fw {
                    assert(self.workspaces@[j] == pre[j]);
                }
            }
            assert forall|j: int| 0 <= j < pre.len() && j != fw implies #[trigger] self.workspaces@[j] == pre[j] by {
            }
        }
        let mut effects: Vec<Effect> = Vec::new();
        effects.push(Effect::Raise(window));
        effects
    }

    /// Focus and raise the next floating window of the focused workspace
    /// (see `next_floating`); nothing happens when none floats there.
    pub fn cycle_floating(&mut self) -> (effects: Vec<Effect>)
        requires
            old(self).wf(),
        ensures
            final(self).wf(),
            cycled_floating(*old(self), *final(self), effects@),
    {
        let fw = self.focused_workspace;
        let n = self.workspaces[fw].floating.len();
        if n == 0 {
            return Vec::new();
        }
        let ghost stack = self.workspaces@[fw as int].floating@;
        let pos: Option<usize> = match self.focused_window {
            Some(w) => position_of(&self.workspaces[fw].floating, w),
            None => None,
        };
        let next_idx = match pos {
            Some(i) => (i + 1) % n,
            None => 0,
        };
        proof {
            match self.focused_window {
                Some(w) => {
                    stack.index_of_first_ensures(w);
                    match stack.index_of_first(w) {
                        Some(k) => {
                            assert(pos == Some(k as usize));
                            assert(next_idx == (k + 1) % (stack.len() as int));
                        },
                        None => {
                            assert(pos is None);
                        },
                    }
                },
                None => {},
            }
        }
        let next = self.workspaces[fw].floating[next_idx];
        proof {
            assert(next == next_floating(stack, self.focused_window));
            stack.index_of_first_ensures(next);
        }
        let mut effects = self.set_focus(next, true);
        let mut r = self.raise_window(next);
        effects.append(&mut r);
        effects
    }
}

/// The first window of a window sequence, if any.
pub open spec fn first_of(s: Seq<XWindow>) -> Option<XWindow> {
    if s.len() > 0 {
        Some(s[0])
    } else {
        None
    }
}

/// Where window `w` is tiled when `t` is laid out in `screen`, or
/// `otherwise` when it is not laid out there.
pub open spec fn tiled_rect(t: Node, screen: Rect, w: XWindow, otherwise: Rect) -> Rect {
    match first_rect(t.spec_geometries(screen), w) {
        Some(r) => r,
        None => otherwise,
    }
}

/// `WindowManager::toggle_floating` from `o` gives `f` and `effects`.
pub open spec fn toggled_floating(o: WindowManager, f: WindowManager, window: XWindow, effects: Seq<Effect>) -> bool {
    let fw = o.focused_workspace as int;
    let ws = o.workspaces@[fw];
    let ws2 = f.workspaces@[fw];
    let screen = o.spec_screen_rect();
    if !o.windows@.contains_key(window)
        || (!o.windows@[window].floating && !ws.tree.window_seq().contains(window)) {
        f == o && effects.len() == 0
    } else {
        &&& only_changed(o.workspaces@, f.workspaces@, fw)
        &&& same_frame(o, f)
        &&& ws2.focused == ws.focused
        &&& same_place(ws, ws2)
        &&& effects =~= seq![Effect::SelectInput(window), Effect::ApplyLayout]
        &&& if o.windows@[window].floating {
            &&& f.windows@ =~= o.windows@.insert(window, Window { floating: false, ..o.windows@[window] })
            &&& ws2.floating@ == without(ws.floating@, window)
            &&& ws2.tree == ws.tree.spec_insert(window, first_of(ws.tree.window_seq()), screen)
        } else {
            &&& f.windows@ =~= o.windows@.insert(window, Window {
                floating: true,
                floating_geometry: tiled_rect(ws.tree, screen, window, o.windows@[window].floating_geometry),
                ..o.windows@[window]
            })
            &&& ws2.tree == ws.tree.spec_remove(window).0
            &&& ws2.floating@ == (if ws.floating@.contains(window) { ws.floating@ } else { ws.floating@.push(window) })
        }
    }
}

impl WindowManager {
    /// Switch `window` between tiled and floating on the focused workspace.
    /// A floating window leaves the stack and goes into the tree next to
    /// its first window; a tiled one in the tree leaves it and floats where
    /// its tile was (the tree laid out on the monitor), on top of the
    /// stack. Nothing
    /// happens to a window that is not managed, nor to a tiled one that is
    /// not in the focused workspace's tree.
    pub fn toggle_floating(&mut self, window: XWindow) -> (effects: Vec<Effect>)
        requires
            old(self).wf(),
        ensures
            final(self).wf(),
            toggled_floating(*old(self), *final(self), window, effects@),
    {
        if !self.windows.contains_key(&window) {
            return Vec::new();
        }
        let is_floating = match self.windows.get(&window) {
            Some(w) => w.floating,
            None => false,
        };
        let fw = self.focused_workspace;
        let screen = self.screen_rect();
        let ghost o = *self;
        let mut effects: Vec<Effect> = Vec::new();
        if is_floating {
            let removed = self.windows.remove(&window);
            if let Some(mut win) = removed {
                win.floating = false;
                self.windows.insert(window, win);
            }
            proof {
                assert(self.windows@ =~= o.windows@.insert(window, Window { floating: false, ..o.windows@[window] }));
            }
            effects.push(Effect::SelectInput(window));
            self.remove_from(window, fw, true);
            let target = self.workspaces[fw].tree.first_window();
            self.insert_tiled(window, fw, target, screen);
            effects.push(Effect::ApplyLayout);
        } else {
            if !self.workspaces[fw].tree.contains(window) {
                return Vec::new();
            }
            proof {
                lemma_ratios_in_scale(self.workspaces@[fw as int].tree);
                law_layout_fits(self.workspaces@[fw as int].tree, screen, None);
            }
            let tiles = self.workspaces[fw].tree.calculate_geometries(screen);
            let geometry = match find_rect(tiles.as_slice(), window) {
                Some(r) => r,
                None => match self.windows.get(&window) {
                    Some(w) => w.floating_geometry,
                    None => screen,
                },
            };
            self.remove_from(window, fw, false);
            let removed = self.windows.remove(&window);
            if let Some(mut win) = removed {
                win.floating = true;
                win.floating_geometry = geometry;
                self.windows.insert(window, win);
            }
            proof {
                assert(self.windows@ =~= o.windows@.insert(window, Window {
                    floating: true,
                    floating_geometry: geometry,
                    ..o.windows@[window]
                }));
            }
            effects.push(Effect::SelectInput(window));
            let ghost pre = self.workspaces@;
            self.workspaces[fw].add_floating(window);
            proof {
                assert forall|j: int| 0 <= j < self.workspaces@.len() implies (#[trigger] self.workspaces@[j]).wf() by {
                    if j != fw {
                        assert(self.workspaces@[j] == pre[j]);
                    }
                }
                assert forall|j: int| 0 <= j < pre.len() && j != fw implies #[trigger] self.workspaces@[j] == pre[j] by {
                }
            }
            effects.push(Effect::ApplyLayout);
        }
        effects
    }

    /// Insert `window` into workspace `i`'s tree next to `target`, laid out
    /// in `screen`.
    fn insert_tiled(&mut self, window: XWindow, i: usize, target: Option<XWindow>, screen: Rect)
        requires
            old(self).wf(),
            i < old(self).workspaces@.len(),
            rect_fits(screen),
        ensures
            final(self).wf(),
            same_frame(*old(self), *final(self)),
            final(self).windows@ == old(self).windows@,
            only_changed(old(self).workspaces@, final(self).workspaces@, i as int),
            final(self).workspaces@[i as int] == (Workspace {
                tree: old(self).workspaces@[i as int].tree.spec_insert(window, target, screen),
                ..old(self).workspaces@[i as int]
            }),
    {
        let ghost pre = self.workspaces@;
        proof {
            lemma_ratios_in_scale(pre[i as int].tree);
            law_layout_fits(pre[i as int].tree, screen, target);
            law_insert_keeps_wf(pre[i as int].tree, window, target, screen);
        }
        self.workspaces[i].tree.insert_with_rect(window, target, screen);
        proof {
            assert forall|j: int| 0 <= j < self.workspaces@.len() implies (#[trigger] self.workspaces@[j]).wf() by {
                if j != i {
                    assert(self.workspaces@[j] == pre[j]);
                }
            }
            assert forall|j: int| 0 <= j < pre.len() && j != i implies #[trigger] self.workspaces@[j] == pre[j] by {
            }
        }
    }
}

} // verus!
