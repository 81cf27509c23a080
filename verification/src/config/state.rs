//! What a configuration script registers: settings, key bindings, rules and
//! the commands already started once.
use vstd::prelude::*;
use crate::config::{is_default_config, Config};
use crate::config::keys::{Action, Keybind};
use crate::config::rules::WindowRule;
use crate::text::str_eq;

verus! {

/// The default resize step of a binding: 0.05, in units of `1 / RATIO_SCALE`.
pub const DEFAULT_RESIZE_AMOUNT: i32 = 500;

/// The views of a list of strings.
pub open spec fn string_views(v: Seq<String>) -> Seq<Seq<char>> {
    v.map_values(|s: String| s@)
}

pub struct LuaState {
    pub config: Config,
    pub keybinds: Vec<Keybind>,
    pub rules: Vec<WindowRule>,
    /// The commands `exec_once` has started in this session.
    pub exec_once_cmds: Vec<String>,
}

impl LuaState {
    /// No command is recorded twice as started once.
    pub open spec fn wf(&self) -> bool {
        string_views(self.exec_once_cmds@).no_duplicates()
    }

    pub fn new() -> (s: LuaState)
        ensures
            s.wf(),
            is_default_config(s.config),
            s.keybinds@.len() == 0,
            s.rules@.len() == 0,
            s.exec_once_cmds@.len() == 0,
    {
        LuaState {
            config: Config::default(),
            keybinds: Vec::new(),
            rules: Vec::new(),
            exec_once_cmds: Vec::new(),
        }
    }

    /// Whether `cmd` was started once already this session.
    pub fn ran_once(&self, cmd: &String) -> (r: bool)
        ensures
            r == string_views(self.exec_once_cmds@).contains(cmd@),
    {
        let mut i: usize = 0;
        while i < self.exec_once_cmds.len()
            invariant
                i <= self.exec_once_cmds@.len(),
                forall|j: int| 0 <= j < i ==> #[trigger] self.exec_once_cmds@[j]@ != cmd@,
            decreases self.exec_once_cmds@.len() - i,
        {
            if self.exec_once_cmds[i] == *cmd {
                assert(string_views(self.exec_once_cmds@)[i as int] == cmd@);
                return true;
            }
            i = i + 1;
        }
        proof {
            if string_views(self.exec_once_cmds@).contains(cmd@) {
                let j = choose|j: int| 0 <= j < string_views(self.exec_once_cmds@).len() && string_views(self.exec_once_cmds@)[j] == cmd@;
                assert(self.exec_once_cmds@[j]@ == cmd@);
            }
        }
        false
    }

    /// Record `cmd` for `exec_once`; returns whether it should be started
    /// now, that is, whether it was not started before.
    pub fn exec_once(&mut self, cmd: String) -> (start: bool)
        ensures
            start == !string_views(old(self).exec_once_cmds@).contains(cmd@),
            string_views(final(self).exec_once_cmds@) == (if start {
                string_views(old(self).exec_once_cmds@).push(cmd@)
            } else {
                string_views(old(self).exec_once_cmds@)
            }),
            final(self).config == old(self).config,
            final(self).keybinds@ == old(self).keybinds@,
            final(self).rules@ == old(self).rules@,
            old(self).wf() ==> final(self).wf(),
    {
        if self.ran_once(&cmd) {
            false
        } else {
            let ghost before = self.exec_once_cmds@;
            self.exec_once_cmds.push(cmd);
            let ghost v = string_views(before);
            assert(string_views(self.exec_once_cmds@) =~= v.push(cmd@));
            proof {
                if v.no_duplicates() {
                    let w = v.push(cmd@);
                    assert forall|i: int, j: int| 0 <= i < w.len() && 0 <= j < w.len() && i != j implies w[i] != w[j] by {
                        if i == v.len() as int {
                            assert(w[j] == v[j]);
                        } else if j == v.len() as int {
                            assert(w[i] == v[i]);
                        }
                    }
                }
            }
            true
        }
    }

    /// Forget the bindings and rules and go back to the default settings,
    /// before a configuration is read again. Commands started once stay
    /// recorded.
    pub fn reset(&mut self)
        ensures
            final(self).keybinds@.len() == 0,
            final(self).rules@.len() == 0,
            final(self).exec_once_cmds@ == old(self).exec_once_cmds@,
            is_default_config(final(self).config),
            old(self).wf() ==> final(self).wf(),
    {
        self.keybinds = Vec::new();
        self.rules = Vec::new();
        self.config = Config::default();
    }
}

/// An action with its strings read as characters.
pub enum ActionView {
    Exec(Seq<char>),
    Focus(Seq<char>),
    Swap(Seq<char>),
    Resize(Seq<char>, i32),
    CloseWindow,
    ForceCloseWindow,
    Workspace(usize),
    WorkspaceNext,
    WorkspacePrev,
    MoveToWorkspace(usize),
    Equalize,
    Reload,
    Exit,
    ToggleFloating,
    ToggleFullscreen,
    CycleFloating,
    FocusMonitor(Seq<char>),
    MoveToMonitor(Seq<char>),
    LuaCallback(usize),
}

impl View for Action {
    type V = ActionView;

    open spec fn view(&self) -> ActionView {
        match self {
            Action::Exec(s) => ActionView::Exec(s@),
            Action::Focus(s) => ActionView::Focus(s@),
            Action::Swap(s) => ActionView::Swap(s@),
            Action::Resize(s, a) => ActionView::Resize(s@, *a),
            Action::CloseWindow => ActionView::CloseWindow,
            Action::ForceCloseWindow => ActionView::ForceCloseWindow,
            Action::Workspace(n) => ActionView::Workspace(*n),
            Action::WorkspaceNext => ActionView::WorkspaceNext,
            Action::WorkspacePrev => ActionView::WorkspacePrev,
            Action::MoveToWorkspace(n) => ActionView::MoveToWorkspace(*n),
            Action::Equalize => ActionView::Equalize,
            Action::Reload => ActionView::Reload,
            Action::Exit => ActionView::Exit,
            Action::ToggleFloating => ActionView::ToggleFloating,
            Action::ToggleFullscreen => ActionView::ToggleFullscreen,
            Action::CycleFloating => ActionView::CycleFloating,
            Action::FocusMonitor(s) => ActionView::FocusMonitor(s@),
            Action::MoveToMonitor(s) => ActionView::MoveToMonitor(s@),
            Action::LuaCallback(i) => ActionView::LuaCallback(*i),
        }
    }
}

/// The action a binding table describes, as `gar.bind` reads it: its
/// `action` name and, where the action takes one, its `direction`
/// (default empty), `amount` (default 0.05), `workspace` (default 1) or
/// `target` (default empty). `None` for an unknown name.
pub open spec fn spec_action_from_table(
    action_type: Seq<char>,
    direction: Option<Seq<char>>,
    amount: Option<i32>,
    workspace: Option<usize>,
    target: Option<Seq<char>>,
) -> Option<ActionView> {
    let dir = match direction { Some(d) => d, None => Seq::empty() };
    let tgt = match target { Some(t) => t, None => Seq::empty() };
    let amt = match amount { Some(a) => a, None => DEFAULT_RESIZE_AMOUNT };
    let ws = match workspace { Some(w) => w, None => 1 };
    if action_type == "close_window"@ { Some(ActionView::CloseWindow) }
    else if action_type == "force_close_window"@ { Some(ActionView::ForceCloseWindow) }
    else if action_type == "reload"@ { Some(ActionView::Reload) }
    else if action_type == "exit"@ { Some(ActionView::Exit) }
    else if action_type == "equalize"@ { Some(ActionView::Equalize) }
    else if action_type == "toggle_floating"@ { Some(ActionView::ToggleFloating) }
    else if action_type == "toggle_fullscreen"@ { Some(ActionView::ToggleFullscreen) }
    else if action_type == "cycle_floating"@ { Some(ActionView::CycleFloating) }
    else if action_type == "focus"@ { Some(ActionView::Focus(dir)) }
    else if action_type == "swap"@ { Some(ActionView::Swap(dir)) }
    else if action_type == "resize"@ { Some(ActionView::Resize(dir, amt)) }
    else if action_type == "workspace"@ { Some(ActionView::Workspace(ws)) }
    else if action_type == "workspace_next"@ { Some(ActionView::WorkspaceNext) }
    else if action_type == "workspace_prev"@ { Some(ActionView::WorkspacePrev) }
    else if action_type == "move_to_workspace"@ { Some(ActionView::MoveToWorkspace(ws)) }
    else if action_type == "focus_monitor"@ { Some(ActionView::FocusMonitor(tgt)) }
    else if action_type == "move_to_monitor"@ { Some(ActionView::MoveToMonitor(tgt)) }
    else { None }
}

pub open spec fn opt_view(s: Option<String>) -> Option<Seq<char>> {
    match s {
        Some(x) => Some(x@),
        None => None,
    }
}

fn text_or_empty(s: Option<String>) -> (r: String)
    ensures
        r@ == (match s { Some(x) => x@, None => Seq::<char>::empty() }),
{
    match s {
        Some(x) => x,
        None => String::new(),
    }
}

/// Build the action of a binding table (see `spec_action_from_table`).
pub fn action_from_table(
    action_type: &str,
    direction: Option<String>,
    amount: Option<i32>,
    workspace: Option<usize>,
    target: Option<String>,
) -> (r: Option<Action>)
    ensures
        (match r { Some(a) => Some(a@), None => None::<ActionView> })
            == spec_action_from_table(action_type@, opt_view(direction), amount, workspace, opt_view(target)),
{
    let ws: usize = match workspace { Some(w) => w, None => 1 };
    let amt: i32 = match amount { Some(a) => a, None => DEFAULT_RESIZE_AMOUNT };
    if str_eq(action_type, "close_window") { Some(Action::CloseWindow) }
    else if str_eq(action_type, "force_close_window") { Some(Action::ForceCloseWindow) }
    else if str_eq(action_type, "reload") { Some(Action::Reload) }
    else if str_eq(action_type, "exit") { Some(Action::Exit) }
    else if str_eq(action_type, "equalize") { Some(Action::Equalize) }
    else if str_eq(action_type, "toggle_floating") { Some(Action::ToggleFloating) }
    else if str_eq(action_type, "toggle_fullscreen") { Some(Action::ToggleFullscreen) }
    else if str_eq(action_type, "cycle_floating") { Some(Action::CycleFloating) }
    else if str_eq(action_type, "focus") { Some(Action::Focus(text_or_empty(direction))) }
    else if str_eq(action_type, "swap") { Some(Action::Swap(text_or_empty(direction))) }
    else if str_eq(action_type, "resize") { Some(Action::Resize(text_or_empty(direction), amt)) }
    else if str_eq(action_type, "workspace") { Some(Action::Workspace(ws)) }
    else if str_eq(action_type, "workspace_next") { Some(Action::WorkspaceNext) }
    else if str_eq(action_type, "workspace_prev") { Some(Action::WorkspacePrev) }
    else if str_eq(action_type, "move_to_workspace") { Some(Action::MoveToWorkspace(ws)) }
    else if str_eq(action_type, "focus_monitor") { Some(Action::FocusMonitor(text_or_empty(target))) }
    else if str_eq(action_type, "move_to_monitor") { Some(Action::MoveToMonitor(text_or_empty(target))) }
    else { None }
}

} // verus!
