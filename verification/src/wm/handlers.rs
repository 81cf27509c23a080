//! What the window manager does on the X server's notifications: a window
//! asking to be mapped, a window unmapped or destroyed, the pointer entering
//! a window, a client's or a pager's request, a window's hints changing.
use vstd::prelude::*;
use crate::config::rules::RuleActions;
use crate::wm::actions::window_floats;
use crate::wm::drag::{raised_order, DragState, PointerState};
use crate::wm::manager::{
    switched, centered_float_geometry, centered_float_ok, default_float_geometry, default_float_ok,
    fresh_floating_window, fresh_window, next_focus, rect_center, same_place, same_settings, unmap_room, Effect,
    WindowManager,
};
use crate::wm::monitor::Monitor;
use crate::wm::tree::{Rect, XWindow};
use crate::wm::window::Window;
use crate::config::keys::Keybind;
use crate::x11::properties::{keycode_from_keysym, KeyboardMapping};
use crate::wm::workspace::{without, Workspace};

verus! {

broadcast use vstd::std_specs::hash::group_hash_axioms;

/// Where a window asking to be mapped goes.
#[derive(Debug, Clone, Copy)]
pub enum Placement {
    /// Map it and leave it alone (docks, desktops, windows managed already).
    MapOnly,
    /// Manage it on the workspace, floating or tiled.
    Manage { workspace: usize, floating: bool },
}

/// The point lies in `r`.
pub open spec fn contains_point(r: Rect, x: i16, y: i16) -> bool {
    r.x <= x < r.x + r.width && r.y <= y < r.y + r.height
}

/// The first monitor whose area holds the point.
pub open spec fn monitor_at(monitors: Seq<Monitor>, x: i16, y: i16) -> Option<int>
    decreases monitors.len(),
{
    if monitors.len() == 0 {
        None
    } else if contains_point(monitors.last().geometry, x, y) && monitor_at(monitors.drop_last(), x, y) is None {
        Some(monitors.len() - 1)
    } else {
        monitor_at(monitors.drop_last(), x, y)
    }
}

/// The window manager's state `f` is `o` with `window` given the focus
/// (see `WindowManager::set_focus`).
pub open spec fn focus_given(o: WindowManager, f: WindowManager, window: XWindow) -> bool {
    let fw = o.focused_workspace as int;
    &&& f.focused_window == Some(window)
    &&& f.workspaces@ == o.workspaces@.update(fw, Workspace { focused: Some(window), ..o.workspaces@[fw] })
    &&& f.windows@ == o.windows@
    &&& f.monitors@ == o.monitors@
    &&& f == WindowManager { workspaces: f.workspaces, windows: f.windows, monitors: f.monitors, focused_window: f.focused_window, ..o }
}

/// State `f` is `o` after forgetting the managed `window` (see
/// `WindowManager::unmanage_window`).
pub open spec fn window_removed(o: WindowManager, f: WindowManager, window: XWindow) -> bool {
    let win = o.windows@[window];
    let i = win.workspace as int;
    let ws = o.workspaces@[i];
    let ws2 = f.workspaces@[i];
    &&& f.windows@ == o.windows@.remove(window)
    &&& f.monitors@ == o.monitors@
    &&& f.focused_workspace == o.focused_workspace
    &&& f.focused_monitor == o.focused_monitor
    &&& f.config == o.config
    &&& f.root == o.root
    &&& f.screen_width == o.screen_width
    &&& f.screen_height == o.screen_height
    &&& f.running == o.running
    &&& f.workspaces@.len() == o.workspaces@.len()
    &&& forall|j: int| 0 <= j < f.workspaces@.len() && j != i ==> #[trigger] f.workspaces@[j] == o.workspaces@[j]
    &&& ws2.id == ws.id && ws2.name == ws.name && ws2.visible == ws.visible && ws2.last_monitor == ws.last_monitor
    &&& (if win.floating {
        ws2.tree == ws.tree && ws2.floating@ == without(ws.floating@, window)
    } else {
        ws2.tree == ws.tree.spec_remove(window).0 && ws2.floating@ == ws.floating@
    })
    &&& (if o.focused_window == Some(window) {
        f.focused_window == next_focus(ws2) && ws2.focused == next_focus(ws2)
    } else {
        f.focused_window == o.focused_window && ws2.focused == ws.focused
    })
}

/// After a window went away: clear the root, lay out again, and give the
/// focus back to the focused window, or put the pointer on the focused
/// monitor's center when there is none; `f` is `m` with that focus.
/// The floating stack of a workspace after `window` is managed on it:
/// pushed on top when it floats and is not there yet.
pub open spec fn managed_floating(s: Seq<XWindow>, window: XWindow, floating: bool) -> Seq<XWindow> {
    if floating && !s.contains(window) { s.push(window) } else { s }
}

pub open spec fn refocused(m: WindowManager, f: WindowManager, effects: Seq<Effect>) -> bool {
    match m.focused_window {
        Some(w) => focus_given(m, f, w) && effects =~= seq![Effect::ClearRoot, Effect::ApplyLayout, Effect::Focus(w, true)],
        None => {
            let (cx, cy) = rect_center(m.monitors@[m.focused_monitor as int].geometry);
            f == m && effects =~= seq![Effect::ClearRoot, Effect::ApplyLayout, Effect::WarpPointer(cx, cy)]
        },
    }
}

/// A request from a client or a pager, as EWMH client messages carry it.
#[derive(Debug, Clone, Copy)]
pub enum ClientRequest {
    /// `_NET_ACTIVE_WINDOW`: focus the window.
    Activate(XWindow),
    /// `_NET_CURRENT_DESKTOP`: show the desktop of that index.
    CurrentDesktop(u32),
    /// `_NET_CLOSE_WINDOW`.
    Close(XWindow),
    /// `_NET_WM_STATE` on the fullscreen state: remove (0), add (1) or
    /// toggle (2).
    Fullscreen(XWindow, u32),
    /// `_NET_WM_STATE` on the above state, with the same actions.
    Above(XWindow, u32),
    /// Anything else.
    Other,
}

impl WindowManager {
    /// The workspace a new window goes to when no rule names one: that of
    /// the monitor under the pointer, else the focused one.
    pub open spec fn spec_pointer_workspace(&self, x: i16, y: i16) -> usize {
        match monitor_at(self.monitors@, x, y) {
            Some(m) => self.monitors@[m].active_workspace,
            None => self.focused_workspace,
        }
    }

    /// Where the window asking to be mapped goes: a dock or desktop window
    /// (`ignore`) or one not to be managed is only mapped; otherwise the
    /// workspace a rule names (counted from 1, clamped to the last) or that
    /// of the monitor under the pointer, floating as a rule says or else as
    /// the window's hints say (`hint_float`).
    pub open spec fn spec_placement(&self, window: XWindow, ignore: bool, rule: RuleActions, hint_float: bool, x: i16, y: i16) -> Placement {
        if ignore || !self.spec_should_manage(window) {
            Placement::MapOnly
        } else {
            let ws = match rule.workspace {
                Some(n) => {
                    let k = if n >= 1 { n - 1 } else { 0 };
                    if k < self.workspaces@.len() - 1 { k } else { self.workspaces@.len() - 1 }
                },
                None => self.spec_pointer_workspace(x, y) as int,
            };
            let floating = match rule.floating {
                Some(f) => f,
                None => hint_float,
            };
            Placement::Manage { workspace: ws as usize, floating }
        }
    }

    /// The workspace of the monitor under the point (see
    /// `spec_pointer_workspace`).
    pub fn workspace_for_new_window(&self, x: i16, y: i16) -> (ws: usize)
        requires
            self.wf(),
        ensures
            ws == self.spec_pointer_workspace(x, y),
            ws < self.workspaces@.len(),
    {
        let mut i: usize = 0;
        let mut found: Option<usize> = None;
        assert(self.monitors@.subrange(0, 0) =~= Seq::<Monitor>::empty());
        while i < self.monitors.len()
            invariant
                i <= self.monitors@.len(),
                match found {
                    Some(m) => monitor_at(self.monitors@.subrange(0, i as int), x, y) == Some(m as int) && m < i,
                    None => monitor_at(self.monitors@.subrange(0, i as int), x, y) is None,
                },
            decreases self.monitors@.len() - i,
        {
            let ghost q = self.monitors@.subrange(0, i + 1);
            assert(q.drop_last() =~= self.monitors@.subrange(0, i as int));
            assert(q.last() == self.monitors@[i as int]);
            if found.is_none() {
                let g = self.monitors[i].geometry;
                let inside = g.x as i32 <= x as i32 && (x as i32) < g.x as i32 + g.width as i32
                    && g.y as i32 <= y as i32 && (y as i32) < g.y as i32 + g.height as i32;
                if inside {
                    found = Some(i);
                }
            }
            i = i + 1;
        }
        assert(self.monitors@.subrange(0, self.monitors@.len() as int) =~= self.monitors@);
        match found {
            Some(m) => self.monitors[m].active_workspace,
            None => self.focused_workspace,
        }
    }

    /// Where the window asking to be mapped goes (see `spec_placement`).
    pub fn placement(&self, window: XWindow, ignore: bool, rule: RuleActions, hint_float: bool, x: i16, y: i16) -> (p: Placement)
        requires
            self.wf(),
        ensures
            p == self.spec_placement(window, ignore, rule, hint_float, x, y),
            p matches Placement::Manage { workspace, .. } ==> workspace < self.workspaces@.len(),
    {
        if ignore || !self.should_manage(window) {
            return Placement::MapOnly;
        }
        let last = self.workspaces.len() - 1;
        let ws = match rule.workspace {
            Some(n) => {
                let k = if n >= 1 { n - 1 } else { 0 };
                if k < last { k } else { last }
            },
            None => self.workspace_for_new_window(x, y),
        };
        let floating = match rule.floating {
            Some(f) => f,
            None => hint_float,
        };
        Placement::Manage { workspace: ws, floating }
    }

    /// Handle a window asking to be mapped (see `spec_placement` for where
    /// it goes): a window only mapped is mapped; a managed one listens to
    /// its events, gets the click-to-focus grab, is managed on its
    /// workspace (focused when that is the focused one), is mapped when a
    /// monitor shows that workspace, the layout is redone, and a shown
    /// window is focused and raised.
    pub fn handle_map_request(&mut self, window: XWindow, ignore: bool, rule: RuleActions, hint_float: bool, x: i16, y: i16) -> (effects: Vec<Effect>)
        requires
            old(self).wf(),
            match old(self).spec_placement(window, ignore, rule, hint_float, x, y) {
                Placement::Manage { workspace, floating } => floating ==> (if workspace == old(self).focused_workspace {
                    default_float_ok(old(self).spec_screen_rect())
                } else {
                    centered_float_ok(old(self).spec_screen_rect())
                }),
                Placement::MapOnly => true,
            },
        ensures
            final(self).wf(),
            match old(self).spec_placement(window, ignore, rule, hint_float, x, y) {
                Placement::MapOnly => *final(self) == *old(self) && effects@ =~= seq![Effect::MapWindow(window)],
                Placement::Manage { workspace, floating } => {
                    let o = *old(self);
                    let f = *final(self);
                    let fw = o.focused_workspace as int;
                    let ws = o.workspaces@[workspace as int];
                    let visible = exists|i: int| 0 <= i < o.monitors@.len() && #[trigger] o.monitors@[i].active_workspace == workspace;
                    let screen = o.spec_screen_rect();
                    &&& f.windows@ == o.windows@.insert(window, f.windows@[window])
                    &&& (if floating {
                        fresh_floating_window(f.windows@[window], window, workspace, if workspace as int == fw {
                            default_float_geometry(screen)
                        } else {
                            centered_float_geometry(screen)
                        })
                    } else {
                        fresh_window(f.windows@[window], window, workspace)
                    })
                    &&& f.workspaces@.len() == o.workspaces@.len()
                    &&& forall|j: int| 0 <= j < o.workspaces@.len() && j != workspace && j != fw ==> #[trigger] f.workspaces@[j] == o.workspaces@[j]
                    &&& f.workspaces@[workspace as int].tree == (if floating { ws.tree } else { ws.tree.spec_insert(window, ws.focused, screen) })
                    &&& floating ==> f.workspaces@[workspace as int].floating@.contains(window)
                    &&& f.workspaces@[workspace as int].floating@ == (if visible && workspace as int == fw {
                        raised_order(managed_floating(ws.floating@, window, floating), window)
                    } else {
                        managed_floating(ws.floating@, window, floating)
                    })
                    &&& f.workspaces@[workspace as int].focused == (if workspace as int == fw { Some(window) } else { ws.focused })
                    &&& same_place(ws, f.workspaces@[workspace as int])
                    &&& workspace as int != fw ==> (if visible {
                        let wf = o.workspaces@[fw];
                        let wf2 = f.workspaces@[fw];
                        &&& wf2.tree == wf.tree
                        &&& wf2.focused == Some(window)
                        &&& wf2.floating@ == raised_order(wf.floating@, window)
                        &&& same_place(wf, wf2)
                    } else {
                        f.workspaces@[fw] == o.workspaces@[fw]
                    })
                    &&& f.focused_window == (if visible || workspace as int == fw { Some(window) } else { o.focused_window })
                    &&& f.monitors@ == o.monitors@
                    &&& f.focused_workspace == o.focused_workspace
                    &&& f.focused_monitor == o.focused_monitor
                    &&& same_settings(o, f)
                    &&& effects@ =~= seq![Effect::SelectInput(window), Effect::GrabButton(window), Effect::SetWindowDesktop(window, workspace as u32)]
                        + (if visible { seq![Effect::MapWindow(window)] } else { Seq::empty() })
                        + seq![Effect::ApplyLayout]
                        + (if visible { seq![Effect::Focus(window, true), Effect::Raise(window)] } else { Seq::empty() })
                },
            },
    {
        let p = self.placement(window, ignore, rule, hint_float, x, y);
        let mut effects: Vec<Effect> = Vec::new();
        match p {
            Placement::MapOnly => {
                effects.push(Effect::MapWindow(window));
                effects
            },
            Placement::Manage { workspace, floating } => {
                let ghost o = *self;
                effects.push(Effect::SelectInput(window));
                effects.push(Effect::GrabButton(window));
                let visible = self.is_workspace_visible(workspace);
                let fw = self.focused_workspace;
                let mut e = if floating {
                    if workspace == fw {
                        self.manage_window_floating(window)
                    } else {
                        self.manage_window_floating_on_workspace(window, workspace)
                    }
                } else {
                    if workspace == fw {
                        self.manage_window(window)
                    } else {
                        self.manage_window_on_workspace(window, workspace)
                    }
                };
                effects.append(&mut e);
                let ghost m = *self;
                proof {
                    if floating {
                        let before = o.workspaces@[workspace as int].floating@;
                        let after = m.workspaces@[workspace as int].floating@;
                        if !before.contains(window) {
                            assert(after[after.len() - 1] == window);
                        }
                        assert(after.contains(window));
                    }
                }
                if visible {
                    effects.push(Effect::MapWindow(window));
                }
                effects.push(Effect::ApplyLayout);
                if visible {
                    let mut f = self.set_focus(window, true);
                    effects.append(&mut f);
                    let ghost n = *self;
                    let mut r = self.raise_window(window);
                    effects.append(&mut r);
                    proof {
                        if floating && workspace == fw {
                            let s = n.workspaces@[fw as int].floating@;
                            assert(s == m.workspaces@[fw as int].floating@);
                            assert(s.contains(window));
                            s.index_of_first_ensures(window);
                            let k = s.index_of_first(window)->0;
                            let t = self.workspaces@[fw as int].floating@;
                            assert(t == s.remove(k).push(window));
                            assert(t[t.len() - 1] == window);
                        }
                    }
                }
                effects
            },
        }
    }

    /// Handle a window's unmap notification as the root window sees it
    /// (`event_window` is the window it came to): one the window manager
    /// made itself only counts down; a managed window shown by a monitor
    /// that unmaps itself is forgotten (see `window_removed`, `refocused`);
    /// anything else is ignored.
    pub fn handle_unmap_notify(&mut self, window: XWindow, event_window: XWindow) -> (effects: Vec<Effect>)
        requires
            old(self).wf(),
        ensures
            final(self).wf(),
            ({
                let o = *old(self);
                let f = *final(self);
                if event_window != o.root || !o.windows@.contains_key(window) {
                    f == o && effects@.len() == 0
                } else if o.windows@[window].ignore_unmap_count > 0 {
                    let w = o.windows@[window];
                    &&& f.windows@ == o.windows@.insert(window, Window { ignore_unmap_count: (w.ignore_unmap_count - 1) as u32, ..w })
                    &&& f == WindowManager { windows: f.windows, ..o }
                    &&& effects@.len() == 0
                } else if exists|i: int| 0 <= i < o.monitors@.len() && #[trigger] o.monitors@[i].active_workspace == o.windows@[window].workspace {
                    exists|m: WindowManager| window_removed(o, m, window) && refocused(m, f, effects@)
                } else {
                    f == o && effects@.len() == 0
                }
            }),
    {
        let mut effects: Vec<Effect> = Vec::new();
        if event_window != self.root {
            return effects;
        }
        let (count, ws) = match self.windows.get(&window) {
            Some(w) => (w.ignore_unmap_count, w.workspace),
            None => {
                return effects;
            },
        };
        if count > 0 {
            let removed = self.windows.remove(&window);
            if let Some(mut win) = removed {
                win.ignore_unmap_count = win.ignore_unmap_count - 1;
                self.windows.insert(window, win);
            }
            proof {
                let w = old(self).windows@[window];
                assert(self.windows@ =~= old(self).windows@.insert(window, Window { ignore_unmap_count: (w.ignore_unmap_count - 1) as u32, ..w }));
            }
            return effects;
        }
        if !self.is_workspace_visible(ws) {
            return effects;
        }
        self.unmanage_window(window);
        let ghost m = *self;
        self.refocus(&mut effects);
        proof {
            assert(window_removed(*old(self), m, window));
        }
        effects
    }

    /// Clear the root, lay out again and settle the focus (see `refocused`).
    fn refocus(&mut self, effects: &mut Vec<Effect>)
        requires
            old(self).wf(),
            old(effects)@.len() == 0,
        ensures
            final(self).wf(),
            refocused(*old(self), *final(self), final(effects)@),
    {
        effects.push(Effect::ClearRoot);
        effects.push(Effect::ApplyLayout);
        match self.focused_window {
            Some(w) => {
                let mut e = self.set_focus(w, true);
                effects.append(&mut e);
            },
            None => {
                let g = self.monitors[self.focused_monitor].geometry;
                proof {
                    assert(crate::wm::tree::rect_fits(self.monitors@[self.focused_monitor as int].geometry));
                }
                let cx = g.x + (g.width / 2) as i16;
                let cy = g.y + (g.height / 2) as i16;
                effects.push(Effect::WarpPointer(cx, cy));
            },
        }
    }

    /// Handle a window's destruction: a drag of it ends; a managed window is
    /// forgotten and the focus settled (see `window_removed`, `refocused`);
    /// anything else only leaves the pointer grab released.
    pub fn handle_destroy_notify(&mut self, pointer: &mut PointerState, window: XWindow) -> (effects: Vec<Effect>)
        requires
            old(self).wf(),
            old(pointer).wf(),
        ensures
            final(self).wf(),
            final(pointer).wf(),
            ({
                let o = *old(self);
                let f = *final(self);
                let dragged = match old(pointer).drag {
                    Some(DragState::Move { window: w, .. }) => Some(w),
                    Some(DragState::Resize { window: w, .. }) => Some(w),
                    Some(DragState::TiledSwap { window: w, .. }) => Some(w),
                    Some(DragState::TiledResize { window: w, .. }) => Some(w),
                    None => None,
                };
                let ungrab = if dragged == Some(window) { seq![Effect::UngrabPointer] } else { Seq::<Effect>::empty() };
                &&& (if dragged == Some(window) { final(pointer).drag is None } else { final(pointer).drag == old(pointer).drag })
                &&& final(pointer).edge_cursor == old(pointer).edge_cursor
                &&& final(pointer).tiled_edge_cursor == old(pointer).tiled_edge_cursor
                &&& if o.windows@.contains_key(window) {
                    exists|m: WindowManager, e: Seq<Effect>| window_removed(o, m, window) && refocused(m, f, e) && effects@ =~= ungrab + e
                } else {
                    f == o && effects@ =~= ungrab
                }
            }),
    {
        let mut effects: Vec<Effect> = Vec::new();
        let dragged = match &pointer.drag {
            Some(DragState::Move { window: w, .. }) => Some(*w),
            Some(DragState::Resize { window: w, .. }) => Some(*w),
            Some(DragState::TiledSwap { window: w, .. }) => Some(*w),
            Some(DragState::TiledResize { window: w, .. }) => Some(*w),
            None => None,
        };
        if dragged == Some(window) {
            pointer.drag = None;
            effects.push(Effect::UngrabPointer);
        }
        let ghost ungrab = effects@;
        let managed = self.unmanage_window(window);
        if managed {
            let ghost m = *self;
            let mut rest: Vec<Effect> = Vec::new();
            self.refocus(&mut rest);
            let ghost e = rest@;
            effects.append(&mut rest);
            proof {
                assert(window_removed(*old(self), m, window));
                assert(refocused(m, *self, e));
                assert(effects@ =~= ungrab + e);
            }
        }
        effects
    }

    /// Handle the pointer entering a managed window: unless a drag is under
    /// way (`busy`), the pointer was just warped (`warped`), the crossing
    /// is not a plain one (`normal` unset) or the window has the focus
    /// already, it gets the focus, and is raised when it floats.
    pub fn handle_enter_notify(&mut self, busy: bool, warped: bool, normal: bool, window: XWindow) -> (effects: Vec<Effect>)
        requires
            old(self).wf(),
        ensures
            final(self).wf(),
            ({
                let o = *old(self);
                let f = *final(self);
                if busy || warped || !normal || !o.windows@.contains_key(window) || o.focused_window == Some(window) {
                    f == o && effects@.len() == 0
                } else {
                    &&& crate::wm::drag::focus_clicked(o, f, window, true)
                    &&& effects@ =~= seq![Effect::Focus(window, false)]
                        + (if window_floats(o, window) { seq![Effect::Raise(window)] } else { Seq::empty() })
                }
            }),
    {
        if busy || warped || !normal || !self.windows.contains_key(&window) || self.focused_window == Some(window) {
            return Vec::new();
        }
        let mut effects = self.set_focus(window, false);
        if self.is_floating(window) {
            let mut r = self.raise_window(window);
            effects.append(&mut r);
        }
        effects
    }

    /// Handle a window's urgency hint read anew (`urgent`, `None` when its
    /// hints could not be read): a managed window whose urgency changed has
    /// it recorded and the borders redrawn.
    pub fn handle_property_notify(&mut self, window: XWindow, urgent: Option<bool>) -> (effects: Vec<Effect>)
        requires
            old(self).wf(),
        ensures
            final(self).wf(),
            ({
                let o = *old(self);
                let f = *final(self);
                match urgent {
                    Some(u) => if o.windows@.contains_key(window) && o.windows@[window].urgent != u {
                        &&& f.windows@ == o.windows@.insert(window, Window { urgent: u, ..o.windows@[window] })
                        &&& f == WindowManager { windows: f.windows, ..o }
                        &&& effects@ =~= seq![Effect::UpdateBorders]
                    } else {
                        f == o && effects@.len() == 0
                    },
                    None => f == o && effects@.len() == 0,
                }
            }),
    {
        let mut effects: Vec<Effect> = Vec::new();
        let u = match urgent {
            Some(u) => u,
            None => {
                return effects;
            },
        };
        let was = match self.windows.get(&window) {
            Some(w) => w.urgent,
            None => {
                return effects;
            },
        };
        if was == u {
            return effects;
        }
        let removed = self.windows.remove(&window);
        if let Some(mut win) = removed {
            win.urgent = u;
            self.windows.insert(window, win);
        }
        proof {
            assert(self.windows@ =~= old(self).windows@.insert(window, Window { urgent: u, ..old(self).windows@[window] }));
        }
        effects.push(Effect::UpdateBorders);
        effects
    }

    /// Whether every managed window can count `n` more unmaps.
    pub fn unmap_room_for(&self, n: u32) -> (b: bool)
        ensures
            b == unmap_room(self.windows@, n as int),
    {
        let mut ok = true;
        for kv in it: self.windows.iter()
            invariant
                ok ==> forall|j: int| 0 <= j < it.index() ==> (#[trigger] it.seq()[j]).1.ignore_unmap_count + n <= u32::MAX,
                it.index() == it.seq().len() && ok ==> unmap_room(self.windows@, n as int),
                !ok ==> !unmap_room(self.windows@, n as int),
                forall|j: int| 0 <= j < it.seq().len() ==> self.windows@.contains_key(*(#[trigger] it.seq()[j]).0)
                    && self.windows@[*it.seq()[j].0] == *it.seq()[j].1,
                forall|k: XWindow| #[trigger] self.windows@.contains_key(k) ==> it.seq().contains((&k, &self.windows@[k])),
        {
            let (k, v) = kv;
            if v.ignore_unmap_count as u64 + n as u64 > u32::MAX as u64 {
                assert(self.windows@.contains_key(*k) && self.windows@[*k] == *v);
                ok = false;
            }
        }
        ok
    }
}


/// State `f` is `o` with `window` raised to the top of the focused
/// workspace's floating windows, if it is among them.
pub open spec fn raised(o: WindowManager, f: WindowManager, window: XWindow) -> bool {
    let fw = o.focused_workspace as int;
    let ws = o.workspaces@[fw];
    let ws2 = f.workspaces@[fw];
    &&& crate::wm::actions::same_frame(o, f)
    &&& f.windows@ == o.windows@
    &&& crate::wm::actions::only_changed(o.workspaces@, f.workspaces@, fw)
    &&& ws2.tree == ws.tree && ws2.focused == ws.focused && ws2.name == ws.name && ws2.id == ws.id
    &&& ws2.visible == ws.visible && ws2.last_monitor == ws.last_monitor
    &&& ws2.floating@ == raised_order(ws.floating@, window)
}

/// `f` is `o` after showing the workspace of the managed `window` (`o` to
/// `m`, with effects `e`, nothing when it is shown already), focusing it
/// and raising it when it floats.
pub open spec fn activated(o: WindowManager, m: WindowManager, f: WindowManager, w: XWindow, e: Seq<Effect>, effects: Seq<Effect>) -> bool {
    let ws = o.windows@[w].workspace;
    &&& (if ws != o.focused_workspace { switched(o, m, ws, true, e) } else { m == o && e.len() == 0 })
    &&& crate::wm::drag::focus_clicked(m, f, w, true)
    &&& effects =~= e + seq![Effect::Focus(w, false)]
        + (if window_floats(m, w) { seq![Effect::Raise(w)] } else { Seq::empty() })
}

/// What a client's or pager's request does: activating a managed window
/// shows its workspace, then focuses it and raises it when it floats;
/// asking for a desktop that exists shows it; closing a managed window
/// asks it to close; a fullscreen state change is passed on; asking a
/// managed window to be above raises it.
pub open spec fn requested(o: WindowManager, f: WindowManager, req: ClientRequest, effects: Seq<Effect>) -> bool {
    match req {
        ClientRequest::Activate(w) => if !o.windows@.contains_key(w) {
            f == o && effects.len() == 0
        } else {
            exists|m: WindowManager, e: Seq<Effect>| #[trigger] activated(o, m, f, w, e, effects)
        },
        ClientRequest::CurrentDesktop(d) => if (d as int) < o.workspaces@.len() {
            switched(o, f, d as usize, true, effects)
        } else {
            f == o && effects.len() == 0
        },
        ClientRequest::Close(w) => f == o && effects =~= (if o.windows@.contains_key(w) { seq![Effect::Close(w)] } else { Seq::empty() }),
        ClientRequest::Fullscreen(w, a) => f == o && effects =~= (if a == 0 {
            seq![Effect::SetFullscreen(w, false)]
        } else if a == 1 {
            seq![Effect::SetFullscreen(w, true)]
        } else if a == 2 {
            seq![Effect::ToggleFullscreen(w)]
        } else {
            Seq::empty()
        }),
        ClientRequest::Above(w, a) => if (a == 1 || a == 2) && o.windows@.contains_key(w) {
            raised(o, f, w) && effects =~= seq![Effect::Raise(w)]
        } else {
            f == o && effects.len() == 0
        },
        ClientRequest::Other => f == o && effects.len() == 0,
    }
}

impl WindowManager {
    /// The number of windows on the workspace the focused monitor shows.
    pub fn shown_count(&self) -> (n: usize)
        requires
            self.wf(),
            self.shown_window_count() <= usize::MAX,
        ensures
            n == self.shown_window_count(),
    {
        let ws = self.monitors[self.focused_monitor].active_workspace;
        let t = self.workspaces[ws].tree.window_count();
        proof {
            assert(self.workspaces@[ws as int].window_seq().len() == self.workspaces@[ws as int].tree.window_seq().len() + self.workspaces@[ws as int].floating@.len());
        }
        t + self.workspaces[ws].floating.len()
    }

    /// Whether the floating geometries of the focused monitor can be
    /// computed (see `centered_float_ok`, `default_float_ok`).
    pub fn float_geometry_fits(&self) -> (b: bool)
        requires
            self.wf(),
        ensures
            b == (centered_float_ok(self.spec_screen_rect()) && default_float_ok(self.spec_screen_rect())),
    {
        let s = self.screen_rect();
        if s.width as u32 * 4 > 65535 || s.height as u32 * 4 > 65535 {
            return false;
        }
        let cw4 = s.width as u32 * 4 / 5;
        let ch4 = s.height as u32 * 4 / 5;
        let cw: u32 = if cw4 >= 400 { cw4 } else { 400 };
        let ch: u32 = if ch4 >= 300 { ch4 } else { 300 };
        let cx = s.x as i64 + half64(s.width as i64 - cw as i64);
        let cy = s.y as i64 + half64(s.height as i64 - ch as i64);
        let aw: u32 = if s.width >= 40 { s.width as u32 - 40 } else { 0 };
        let ah: u32 = if s.height >= 40 { s.height as u32 - 40 } else { 0 };
        let dw: u32 = if aw < 640 { aw } else { 640 };
        let dh: u32 = if ah < 480 { ah } else { 480 };
        let dx = s.x as i64 + half64(s.width as i64 - dw as i64);
        let dy = s.y as i64 + half64(s.height as i64 - dh as i64);
        -32768 <= cx && cx <= 32767 && -32768 <= cy && cy <= 32767
            && s.width <= 32767 && s.height <= 32767
            && -32768 <= dx && dx <= 32767 && -32768 <= dy && dy <= 32767
    }

    /// Handle a client's or pager's request (see `requested`).
    pub fn handle_client_message(&mut self, req: ClientRequest) -> (effects: Vec<Effect>)
        requires
            old(self).wf(),
            old(self).spec_unmap_room(old(self).shown_window_count()),
        ensures
            final(self).wf(),
            requested(*old(self), *final(self), req, effects@),
    {
        let mut effects: Vec<Effect> = Vec::new();
        match req {
            ClientRequest::Activate(w) => {
                let ws = match self.windows.get(&w) {
                    Some(win) => win.workspace,
                    None => {
                        return effects;
                    },
                };
                let ghost o = *self;
                if ws != self.focused_workspace {
                    let mut e = self.switch_workspace(ws);
                    effects.append(&mut e);
                }
                let ghost m = *self;
                proof {
                    assert(if ws != o.focused_workspace { switched(o, m, ws, true, effects@) } else { m == o && effects@.len() == 0 });
                }
                let ghost e = effects@;
                let mut f = self.set_focus(w, false);
                effects.append(&mut f);
                if self.is_floating(w) {
                    let mut r = self.raise_window(w);
                    effects.append(&mut r);
                }
                proof {
                    assert(crate::wm::drag::focus_clicked(m, *self, w, true));
                    assert(effects@ =~= e + seq![Effect::Focus(w, false)]
                        + (if window_floats(m, w) { seq![Effect::Raise(w)] } else { Seq::<Effect>::empty() }));
                    assert(activated(o, m, *self, w, e, effects@));
                }
            },
            ClientRequest::CurrentDesktop(d) => {
                if (d as usize) < self.workspaces.len() && d as u64 <= usize::MAX as u64 {
                    effects = self.switch_workspace(d as usize);
                }
            },
            ClientRequest::Close(w) => {
                if self.windows.contains_key(&w) {
                    effects.push(Effect::Close(w));
                }
            },
            ClientRequest::Fullscreen(w, a) => {
                if a == 0 {
                    effects.push(Effect::SetFullscreen(w, false));
                } else if a == 1 {
                    effects.push(Effect::SetFullscreen(w, true));
                } else if a == 2 {
                    effects.push(Effect::ToggleFullscreen(w));
                }
            },
            ClientRequest::Above(w, a) => {
                if (a == 1 || a == 2) && self.windows.contains_key(&w) {
                    effects = self.raise_window(w);
                }
            },
            ClientRequest::Other => {},
        }
        effects
    }
}

fn half64(v: i64) -> (r: i64)
    requires
        -1000000 <= v <= 1000000,
    ensures
        r == crate::wm::manager::half_toward_zero(v as int),
{
    if v >= 0 { v / 2 } else { -((-v) / 2) }
}


impl WindowManager {
    /// Take the monitors found anew (one of the whole screen when none was
    /// found), hand the workspaces out to them again, keep the focused
    /// monitor if it still exists (else the first), keep the focused
    /// workspace if that monitor holds it (else show its first), and lay
    /// out again.
    pub fn refresh_monitors(&mut self, monitors: Vec<Monitor>) -> (effects: Vec<Effect>)
        requires
            old(self).wf(),
            monitors@.len() * crate::wm::manager::WORKSPACE_COUNT <= usize::MAX,
            forall|i: int| 0 <= i < monitors@.len() ==> crate::wm::tree::rect_fits(#[trigger] monitors@[i].geometry),
        ensures
            final(self).wf(),
            monitors@.len() > 0 ==> crate::wm::manager::same_outputs(monitors@, final(self).monitors@),
            monitors@.len() == 0 ==> final(self).monitors@.len() == 1 && final(self).monitors@[0].geometry == (Rect {
                x: 0,
                y: 0,
                width: old(self).screen_width,
                height: old(self).screen_height,
            }) && final(self).monitors@[0].name@ == "default"@ && final(self).monitors@[0].output == 0,
            forall|i: int| 0 <= i < final(self).monitors@.len() ==> crate::wm::manager::assigned(
                #[trigger] final(self).monitors@[i],
                i,
                crate::wm::manager::WORKSPACE_COUNT as int,
                final(self).monitors@.len() as int,
            ),
            final(self).focused_monitor == (if old(self).focused_monitor < final(self).monitors@.len() { old(self).focused_monitor } else { 0 }),
            final(self).focused_workspace == (if final(self).monitors@[final(self).focused_monitor as int].workspaces@.contains(old(self).focused_workspace) {
                old(self).focused_workspace
            } else {
                final(self).monitors@[final(self).focused_monitor as int].active_workspace
            }),
            *final(self) == (WindowManager {
                monitors: final(self).monitors,
                focused_monitor: final(self).focused_monitor,
                focused_workspace: final(self).focused_workspace,
                ..*old(self)
            }),
            effects@ =~= seq![Effect::ApplyLayout],
    {
        let mut monitors = monitors;
        if monitors.len() == 0 {
            monitors.push(Monitor::new(String::from_str("default"), 0, Rect::new(0, 0, self.screen_width, self.screen_height)));
        }
        let ghost before = monitors@;
        crate::wm::manager::assign_workspaces(&mut monitors, crate::wm::manager::WORKSPACE_COUNT);
        proof {
            assert forall|k: int| 0 <= k < monitors@.len() implies #[trigger] monitors@[k].active_workspace < crate::wm::manager::WORKSPACE_COUNT by {
                crate::wm::manager::lemma_range_start_bounds(k, crate::wm::manager::WORKSPACE_COUNT as int, monitors@.len() as int);
                assert(crate::wm::manager::assigned(monitors@[k], k, crate::wm::manager::WORKSPACE_COUNT as int, monitors@.len() as int));
            }
            assert forall|k: int| 0 <= k < monitors@.len() implies crate::wm::tree::rect_fits(#[trigger] monitors@[k].geometry) by {
                assert(monitors@[k].geometry == before[k].geometry);
            }
            assert forall|k: int, j: int| 0 <= k < monitors@.len() && 0 <= j < monitors@[k].workspaces@.len()
                implies #[trigger] monitors@[k].workspaces@[j] < crate::wm::manager::WORKSPACE_COUNT by {
                crate::wm::manager::lemma_range_start_bounds(k, crate::wm::manager::WORKSPACE_COUNT as int, monitors@.len() as int);
                assert(crate::wm::manager::assigned(monitors@[k], k, crate::wm::manager::WORKSPACE_COUNT as int, monitors@.len() as int));
            }
        }
        self.monitors = monitors;
        if self.focused_monitor >= self.monitors.len() {
            self.focused_monitor = 0;
        }
        let fm = self.focused_monitor;
        if !crate::wm::manager::usize_vec_contains(&self.monitors[fm].workspaces, self.focused_workspace) {
            self.focused_workspace = self.monitors[fm].active_workspace;
        }
        let mut effects: Vec<Effect> = Vec::new();
        effects.push(Effect::ApplyLayout);
        effects
    }

    /// Record the screen's new size.
    pub fn set_screen_size(&mut self, width: u16, height: u16)
        requires
            old(self).wf(),
            width <= 32767,
            height <= 32767,
        ensures
            final(self).wf(),
            *final(self) == (WindowManager { screen_width: width, screen_height: height, ..*old(self) }),
    {
        self.screen_width = width;
        self.screen_height = height;
    }
}


/// The modifier bits key bindings are compared on: Shift, Control, Mod1
/// and Mod4; Lock, Mod2 and Mod5 (Caps, Num and Scroll Lock) are left out.
pub const KEY_MODIFIERS: u16 = 0x4d;

/// The keycode the mapping gives `keysym`: its first row holding it.
pub open spec fn keycode_of(m: KeyboardMapping, keysym: u32) -> Option<u8> {
    match m.first_row(0, keysym) {
        Some(r) => Some((m.min_keycode + r) as u8),
        None => None,
    }
}

/// Binding `kb` is for the key `keycode` pressed with modifier state `state`.
pub open spec fn binds(m: KeyboardMapping, kb: Keybind, keycode: u8, state: u16) -> bool {
    keycode_of(m, kb.keysym) == Some(keycode) && kb.modifiers == state & KEY_MODIFIERS
}

/// The first binding of `kbs` for the key pressed.
pub open spec fn first_binding(kbs: Seq<Keybind>, m: KeyboardMapping, keycode: u8, state: u16) -> Option<int>
    decreases kbs.len(),
{
    if kbs.len() == 0 {
        None
    } else {
        match first_binding(kbs.drop_last(), m, keycode, state) {
            Some(i) => Some(i),
            None => if binds(m, kbs.last(), keycode, state) { Some(kbs.len() - 1) } else { None },
        }
    }
}

/// The index of the first key binding for the key `keycode` pressed with
/// modifier state `state` (see `first_binding`); its action is to be
/// carried out.
pub fn find_keybind(keybinds: &Vec<Keybind>, mapping: &KeyboardMapping, keycode: u8, state: u16) -> (r: Option<usize>)
    requires
        mapping.wf(),
    ensures
        r == (match first_binding(keybinds@, *mapping, keycode, state) {
            Some(i) => Some(i as usize),
            None => None::<usize>,
        }),
        r matches Some(i) ==> i < keybinds@.len(),
{
    let modifiers = state & KEY_MODIFIERS;
    let mut i: usize = 0;
    assert(keybinds@.subrange(0, 0) =~= Seq::<Keybind>::empty());
    while i < keybinds.len()
        invariant
            i <= keybinds@.len(),
            mapping.wf(),
            modifiers == state & KEY_MODIFIERS,
            first_binding(keybinds@.subrange(0, i as int), *mapping, keycode, state) is None,
        decreases keybinds@.len() - i,
    {
        let ghost q = keybinds@.subrange(0, i + 1);
        assert(q.drop_last() =~= keybinds@.subrange(0, i as int));
        assert(q.last() == keybinds@[i as int]);
        let kb = &keybinds[i];
        let code = keycode_from_keysym(mapping, kb.keysym);
        if code == Some(keycode) && kb.modifiers == modifiers {
            proof {
                lemma_first_binding_prefix(keybinds@, i as int + 1, *mapping, keycode, state);
            }
            return Some(i);
        }
        i = i + 1;
    }
    assert(keybinds@.subrange(0, keybinds@.len() as int) =~= keybinds@);
    None
}

/// A binding found in a prefix is the first of the whole list.
proof fn lemma_first_binding_prefix(kbs: Seq<Keybind>, n: int, m: KeyboardMapping, keycode: u8, state: u16)
    requires
        0 <= n <= kbs.len(),
        first_binding(kbs.subrange(0, n), m, keycode, state) is Some,
    ensures
        first_binding(kbs, m, keycode, state) == first_binding(kbs.subrange(0, n), m, keycode, state),
    decreases kbs.len() - n,
{
    if n < kbs.len() {
        let q = kbs.subrange(0, n + 1);
        assert(q.drop_last() =~= kbs.subrange(0, n));
        lemma_first_binding_prefix(kbs, n + 1, m, keycode, state);
    } else {
        assert(kbs.subrange(0, n) =~= kbs);
    }
}


impl WindowManager {
    /// Take over a window found mapped at start-up: one that asked not to
    /// be managed (`override_redirect`), is not viewable or is managed
    /// already is left alone; otherwise it listens to its events, gets the
    /// click-to-focus grab and is managed on the focused workspace,
    /// floating as a rule says or else as its hints say (`hint_float`).
    /// Returns whether it was taken over.
    pub fn adopt_window(&mut self, window: XWindow, override_redirect: bool, viewable: bool, rule: RuleActions, hint_float: bool) -> (res: (bool, Vec<Effect>))
        requires
            old(self).wf(),
            default_float_ok(old(self).spec_screen_rect()),
        ensures
            final(self).wf(),
            ({
                let o = *old(self);
                let f = *final(self);
                let fw = o.focused_workspace as int;
                let ws = o.workspaces@[fw];
                let floating = match rule.floating {
                    Some(x) => x,
                    None => hint_float,
                };
                if override_redirect || !viewable || o.windows@.contains_key(window) {
                    f == o && !res.0 && res.1@.len() == 0
                } else if !o.spec_should_manage(window) {
                    f == o && res.0 && res.1@ =~= seq![Effect::SelectInput(window), Effect::GrabButton(window)]
                } else {
                    &&& res.0
                    &&& f.windows@ == o.windows@.insert(window, f.windows@[window])
                    &&& (if floating {
                        &&& fresh_floating_window(f.windows@[window], window, fw as usize, default_float_geometry(o.spec_screen_rect()))
                        &&& f.workspaces@ == o.workspaces@.update(fw, Workspace { floating: f.workspaces@[fw].floating, focused: Some(window), ..ws })
                        &&& f.workspaces@[fw].floating@ == (if ws.floating@.contains(window) { ws.floating@ } else { ws.floating@.push(window) })
                    } else {
                        &&& fresh_window(f.windows@[window], window, fw as usize)
                        &&& f.workspaces@ == o.workspaces@.update(fw, Workspace {
                            tree: ws.tree.spec_insert(window, ws.focused, o.spec_screen_rect()),
                            focused: Some(window),
                            ..ws
                        })
                    })
                    &&& f.focused_window == Some(window)
                    &&& f.monitors@ == o.monitors@
                    &&& f.focused_workspace == o.focused_workspace
                    &&& f.focused_monitor == o.focused_monitor
                    &&& same_settings(o, f)
                    &&& res.1@ =~= seq![Effect::SelectInput(window), Effect::GrabButton(window), Effect::SetWindowDesktop(window, fw as u32)]
                }
            }),
    {
        let mut effects: Vec<Effect> = Vec::new();
        if override_redirect || !viewable || self.windows.contains_key(&window) {
            return (false, effects);
        }
        let floating = match rule.floating {
            Some(x) => x,
            None => hint_float,
        };
        effects.push(Effect::SelectInput(window));
        effects.push(Effect::GrabButton(window));
        let mut e = if floating {
            self.manage_window_floating(window)
        } else {
            self.manage_window(window)
        };
        effects.append(&mut e);
        (true, effects)
    }

    /// After taking windows over at start-up (`adopted` of them): when any
    /// was, lay out again and give the focused window the focus.
    pub fn finish_adoption(&mut self, adopted: usize) -> (effects: Vec<Effect>)
        requires
            old(self).wf(),
        ensures
            final(self).wf(),
            adopted == 0 ==> *final(self) == *old(self) && effects@.len() == 0,
            adopted > 0 ==> match old(self).focused_window {
                Some(w) => focus_given(*old(self), *final(self), w) && effects@ =~= seq![Effect::ApplyLayout, Effect::Focus(w, true)],
                None => *final(self) == *old(self) && effects@ =~= seq![Effect::ApplyLayout],
            },
    {
        let mut effects: Vec<Effect> = Vec::new();
        if adopted == 0 {
            return effects;
        }
        effects.push(Effect::ApplyLayout);
        match self.focused_window {
            Some(w) => {
                let mut e = self.set_focus(w, true);
                effects.append(&mut e);
            },
            None => {},
        }
        effects
    }
}

/// What to do with a helper program (the bar, the notification daemon)
/// when the configuration is read again.
#[derive(Debug, Clone, Copy, PartialEq, Eq, Structural)]
pub enum HelperAction {
    /// Tell the running helper to read its configuration again.
    Reload,
    /// Kill the helper that stopped answering and start it again.
    Restart,
    /// Start the helper.
    Spawn,
    /// Stop the helper, no longer wanted.
    Stop,
    Nothing,
}

/// What to do with a helper: when it is wanted (`enabled`), reload it if
/// its process runs (`alive`) and its socket is there (`healthy`), restart
/// it if it runs without its socket, start it otherwise; when it is not
/// wanted, stop it if it was started (`started`).
pub fn helper_action(enabled: bool, started: bool, alive: bool, healthy: bool) -> (a: HelperAction)
    ensures
        a == (if enabled {
            if alive && healthy {
                HelperAction::Reload
            } else if alive {
                HelperAction::Restart
            } else {
                HelperAction::Spawn
            }
        } else if started {
            HelperAction::Stop
        } else {
            HelperAction::Nothing
        }),
{
    if enabled {
        if alive && healthy {
            HelperAction::Reload
        } else if alive {
            HelperAction::Restart
        } else {
            HelperAction::Spawn
        }
    } else if started {
        HelperAction::Stop
    } else {
        HelperAction::Nothing
    }
}

} // verus!
