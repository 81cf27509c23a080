//! Carrying out a key binding's action.
use vstd::prelude::*;
use crate::config::keys::Action;
use crate::wm::actions::{cycled_floating, focused_monitor_by, moved_to_monitor, moved_to_workspace, toggled_floating};
use crate::wm::manager::{WORKSPACE_COUNT, switched, Effect, WindowManager};
use crate::wm::navigate::{equalized, focused_direction, resized_direction, swapped_direction};
use crate::wm::workspace::Workspace;
use crate::x11::events::{parse_direction, spec_parse_direction};
use crate::text::{chars_of, parse_usize, parse_usize_chars, starts_with_chars, str_eq, trim, trimmed};

verus! {

broadcast use vstd::std_specs::hash::group_hash_axioms;

/// A workspace holds a tiled or a floating window.
pub open spec fn occupied(ws: Workspace) -> bool {
    !(ws.tree.empty_leaf() && ws.floating@.len() == 0)
}

/// The workspace `steps` places after (or before) `from`, wrapping around.
pub open spec fn step_from(from: int, steps: int, len: int, forward: bool) -> int {
    if forward {
        (from + steps) % len
    } else {
        (from + len - steps) % len
    }
}

/// The nearest occupied workspace after (or before) the focused one,
/// wrapping around, the focused one itself last.
pub open spec fn next_occupied(o: WindowManager, forward: bool) -> Option<int> {
    let len = o.workspaces@.len() as int;
    let fw = o.focused_workspace as int;
    if exists|i: int| 1 <= i <= len && #[trigger] occupied(o.workspaces@[step_from(fw, i, len, forward)]) {
        let i = choose|i: int| 1 <= i <= len && #[trigger] occupied(o.workspaces@[step_from(fw, i, len, forward)])
            && forall|j: int| 1 <= j < i ==> !#[trigger] occupied(o.workspaces@[step_from(fw, j, len, forward)]);
        Some(step_from(fw, i, len, forward))
    } else {
        None
    }
}

/// Carrying out `action` from `o` gives `f` and `effects`.
pub open spec fn acted(o: WindowManager, f: WindowManager, action: Action, effects: Seq<Effect>) -> bool {
    let unchanged = f == o && effects.len() == 0;
    match action {
        Action::Exec(cmd) => f == o && effects =~= seq![Effect::Spawn(cmd)],
        Action::CloseWindow => match o.focused_window {
            Some(w) => if o.windows@.contains_key(w) { f == o && effects =~= seq![Effect::Close(w)] } else { unchanged },
            None => unchanged,
        },
        Action::ForceCloseWindow => match o.focused_window {
            Some(w) => f == o && effects =~= seq![Effect::ForceClose(w)],
            None => unchanged,
        },
        Action::Focus(d) => match spec_parse_direction(d@) {
            Some(dir) => focused_direction(o, f, dir, effects),
            None => unchanged,
        },
        Action::Swap(d) => match spec_parse_direction(d@) {
            Some(dir) => swapped_direction(o, f, dir, effects),
            None => unchanged,
        },
        Action::Resize(d, amount) => match spec_parse_direction(d@) {
            Some(dir) => resized_direction(o, f, dir, amount, effects),
            None => unchanged,
        },
        Action::Equalize => equalized(o, f, effects),
        Action::Workspace(n) => switched(o, f, if n == 0 { 0 } else { (n - 1) as usize }, true, effects),
        Action::WorkspaceNext => match next_occupied(o, true) {
            Some(idx) => switched(o, f, idx as usize, true, effects),
            None => unchanged,
        },
        Action::WorkspacePrev => match next_occupied(o, false) {
            Some(idx) => switched(o, f, idx as usize, true, effects),
            None => unchanged,
        },
        Action::MoveToWorkspace(n) => moved_to_workspace(o, f, if n == 0 { 0 } else { (n - 1) as usize }, effects),
        Action::Reload => f == o && effects =~= seq![Effect::Reload],
        Action::Exit => f == WindowManager { running: false, ..o } && effects.len() == 0,
        Action::ToggleFloating => match o.focused_window {
            Some(w) => toggled_floating(o, f, w, effects),
            None => unchanged,
        },
        Action::ToggleFullscreen => match o.focused_window {
            Some(w) => f == o && effects =~= seq![Effect::ToggleFullscreen(w)],
            None => unchanged,
        },
        Action::CycleFloating => cycled_floating(o, f, effects),
        Action::FocusMonitor(t) => focused_monitor_by(o, f, t@, effects),
        Action::MoveToMonitor(t) => moved_to_monitor(o, f, t@, effects),
        Action::LuaCallback(i) => f == o && effects =~= seq![Effect::RunCallback(i)],
    }
}

fn single(e: Effect) -> (v: Vec<Effect>)
    ensures
        v@ == seq![e],
{
    let mut v: Vec<Effect> = Vec::new();
    v.push(e);
    v
}

impl WindowManager {
    /// The nearest occupied workspace after (or before) the focused one
    /// (see `next_occupied`).
    pub fn find_occupied(&self, forward: bool) -> (r: Option<usize>)
        requires
            self.wf(),
        ensures
            r matches Some(i) ==> next_occupied(*self, forward) == Some(i as int) && i < self.workspaces@.len(),
            r is None <==> next_occupied(*self, forward) is None,
    {
        let len = self.workspaces.len();
        let fw = self.focused_workspace;
        let ghost o = *self;
        let mut i: usize = 1;
        while i <= len
            invariant
                len == self.workspaces@.len(),
                len == WORKSPACE_COUNT,
                fw == self.focused_workspace,
                fw < len,
                1 <= i <= len + 1,
                *self == o,
                forall|j: int| 1 <= j < i ==> !#[trigger] occupied(self.workspaces@[step_from(fw as int, j, len as int, forward)]),
            decreases len + 1 - i,
        {
            let idx = if forward { (fw + i) % len } else { (fw + len - i) % len };
            assert(idx == step_from(fw as int, i as int, len as int, forward));
            if self.workspaces[idx].has_windows() {
                proof {
                    let c = choose|c: int| 1 <= c <= len && #[trigger] occupied(self.workspaces@[step_from(fw as int, c, len as int, forward)])
                        && forall|j: int| 1 <= j < c ==> !#[trigger] occupied(self.workspaces@[step_from(fw as int, j, len as int, forward)]);
                    assert(occupied(self.workspaces@[step_from(fw as int, i as int, len as int, forward)]));
                    assert(c == i) by {
                        if c > i {
                            assert(occupied(self.workspaces@[step_from(fw as int, i as int, len as int, forward)]));
                        }
                    }
                }
                return Some(idx);
            }
            i = i + 1;
        }
        None
    }

    /// Carry out a key binding's action (see `acted`).
    pub fn execute_action(&mut self, action: Action) -> (effects: Vec<Effect>)
        requires
            old(self).wf(),
            old(self).spec_unmap_room(1 + old(self).shown_window_count()),
        ensures
            final(self).wf(),
            acted(*old(self), *final(self), action, effects@),
    {
        match action {
            Action::Exec(cmd) => single(Effect::Spawn(cmd)),
            Action::CloseWindow => match self.focused_window {
                Some(w) => {
                    if self.windows.contains_key(&w) {
                        single(Effect::Close(w))
                    } else {
                        Vec::new()
                    }
                },
                None => Vec::new(),
            },
            Action::ForceCloseWindow => match self.focused_window {
                Some(w) => single(Effect::ForceClose(w)),
                None => Vec::new(),
            },
            Action::Focus(d) => match parse_direction(d.as_str()) {
                Some(dir) => self.focus_direction(dir),
                None => Vec::new(),
            },
            Action::Swap(d) => match parse_direction(d.as_str()) {
                Some(dir) => self.swap_direction(dir),
                None => Vec::new(),
            },
            Action::Resize(d, amount) => match parse_direction(d.as_str()) {
                Some(dir) => self.resize_direction(dir, amount),
                None => Vec::new(),
            },
            Action::Equalize => self.equalize(),
            Action::Workspace(n) => {
                let idx = if n == 0 { 0 } else { n - 1 };
                self.switch_workspace(idx)
            },
            Action::WorkspaceNext => match self.find_occupied(true) {
                Some(idx) => self.switch_workspace(idx),
                None => Vec::new(),
            },
            Action::WorkspacePrev => match self.find_occupied(false) {
                Some(idx) => self.switch_workspace(idx),
                None => Vec::new(),
            },
            Action::MoveToWorkspace(n) => {
                let idx = if n == 0 { 0 } else { n - 1 };
                self.move_to_workspace(idx)
            },
            Action::Reload => single(Effect::Reload),
            Action::Exit => {
                self.running = false;
                Vec::new()
            },
            Action::ToggleFloating => match self.focused_window {
                Some(w) => self.toggle_floating(w),
                None => Vec::new(),
            },
            Action::ToggleFullscreen => match self.focused_window {
                Some(w) => single(Effect::ToggleFullscreen(w)),
                None => Vec::new(),
            },
            Action::CycleFloating => self.cycle_floating(),
            Action::FocusMonitor(t) => self.focus_monitor(t.as_str()),
            Action::MoveToMonitor(t) => self.move_to_monitor(t.as_str()),
            Action::LuaCallback(i) => single(Effect::RunCallback(i)),
        }
    }
}

/// The first workspace named `name`.
pub open spec fn workspace_named(wss: Seq<Workspace>, name: Seq<char>) -> Option<int> {
    if exists|i: int| 0 <= i < wss.len() && #[trigger] wss[i].name@ == name {
        Some(choose|i: int| 0 <= i < wss.len() && #[trigger] wss[i].name@ == name
            && forall|j: int| 0 <= j < i ==> #[trigger] wss[j].name@ != name)
    } else {
        None
    }
}

/// The workspace a `workspace <n>` argument names: its number (counted
/// from 1) when it is one in range, else the first workspace of that name.
pub open spec fn workspace_argument(wss: Seq<Workspace>, arg: Seq<char>) -> Option<int> {
    let by_number = match parse_usize(arg) {
        Some(num) => {
            let idx = if num == 0 { 0 } else { num - 1 };
            if idx < wss.len() { Some(idx as int) } else { None }
        },
        None => None,
    };
    if by_number is Some {
        by_number
    } else {
        workspace_named(wss, arg)
    }
}

/// The workspace an i3 `RUN_COMMAND` switches to, if it is a workspace
/// command that names one. The command and its argument are trimmed.
/// `workspace number <n>` names the `n`th workspace (counted from 1);
/// `workspace <arg>` names it by number or else by name.
pub open spec fn i3_command_target(wss: Seq<Workspace>, cmd: Seq<char>) -> Option<int> {
    let c = trimmed(cmd);
    if c.len() >= 17 && c.subrange(0, 17) == "workspace number "@ {
        match parse_usize(trimmed(c.subrange(17, c.len() as int))) {
            Some(num) => {
                let idx = if num == 0 { 0 } else { num - 1 };
                if idx < wss.len() { Some(idx as int) } else { None }
            },
            None => None,
        }
    } else if c.len() >= 10 && c.subrange(0, 10) == "workspace "@ {
        workspace_argument(wss, trimmed(c.subrange(10, c.len() as int)))
    } else {
        None
    }
}

impl WindowManager {
    /// The first workspace named `name`.
    pub fn workspace_by_name(&self, name: &str) -> (r: Option<usize>)
        ensures
            r matches Some(i) ==> workspace_named(self.workspaces@, name@) == Some(i as int) && i < self.workspaces@.len(),
            r is None <==> workspace_named(self.workspaces@, name@) is None,
    {
        let mut i: usize = 0;
        while i < self.workspaces.len()
            invariant
                i <= self.workspaces@.len(),
                forall|j: int| 0 <= j < i ==> #[trigger] self.workspaces@[j].name@ != name@,
            decreases self.workspaces@.len() - i,
        {
            if str_eq(self.workspaces[i].name.as_str(), name) {
                proof {
                    assert(self.workspaces@[i as int].name@ == name@);
                    let c = choose|c: int| 0 <= c < self.workspaces@.len() && #[trigger] self.workspaces@[c].name@ == name@
                        && forall|j: int| 0 <= j < c ==> #[trigger] self.workspaces@[j].name@ != name@;
                    assert(c == i) by {
                        if c > i {
                            assert(self.workspaces@[i as int].name@ != name@);
                        }
                    }
                }
                return Some(i);
            }
            i = i + 1;
        }
        None
    }

    fn number_in_range(&self, arg: &[char]) -> (r: Option<usize>)
        ensures
            r == (match parse_usize(arg@) {
                Some(num) => {
                    let idx = if num == 0 { 0 } else { num - 1 };
                    if idx < self.workspaces@.len() { Some(idx as usize) } else { None::<usize> }
                },
                None => None::<usize>,
            }),
    {
        match parse_usize_chars(arg) {
            Some(num) => {
                let idx = if num == 0 { 0 } else { num - 1 };
                if idx < self.workspaces.len() {
                    Some(idx)
                } else {
                    None
                }
            },
            None => None,
        }
    }

    /// Carry out an i3 `RUN_COMMAND`: switch to the workspace it names
    /// without moving the pointer (see `i3_command_target`). Returns
    /// whether it named one.
    pub fn execute_i3_command(&mut self, cmd: &str) -> (res: (bool, Vec<Effect>))
        requires
            old(self).wf(),
            old(self).spec_unmap_room(old(self).shown_window_count()),
        ensures
            final(self).wf(),
            res.0 == (i3_command_target(old(self).workspaces@, cmd@) is Some),
            match i3_command_target(old(self).workspaces@, cmd@) {
                Some(idx) => switched(*old(self), *final(self), idx as usize, false, res.1@),
                None => *final(self) == *old(self) && res.1@.len() == 0,
            },
    {
        let t = trim(cmd);
        let c = chars_of(t.as_str());
        let p1 = chars_of("workspace ");
        let p2 = chars_of("workspace number ");
        proof {
            reveal_strlit("workspace ");
            reveal_strlit("workspace number ");
        }
        let ghost wss = self.workspaces@;
        let target: Option<usize> = if starts_with_chars(c.as_slice(), p2.as_slice()) {
            let rest = t.as_str().substring_char(17, c.len());
            let arg = trim(rest);
            let a = chars_of(arg.as_str());
            self.number_in_range(a.as_slice())
        } else if starts_with_chars(c.as_slice(), p1.as_slice()) {
            let rest = t.as_str().substring_char(10, c.len());
            let arg = trim(rest);
            let a = chars_of(arg.as_str());
            match self.number_in_range(a.as_slice()) {
                Some(idx) => Some(idx),
                None => self.workspace_by_name(arg.as_str()),
            }
        } else {
            None
        };
        match target {
            Some(idx) => {
                let effects = self.switch_workspace_impl(idx, false);
                (true, effects)
            },
            None => (false, Vec::new()),
        }
    }
}

} // verus!
