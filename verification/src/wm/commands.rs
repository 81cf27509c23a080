//! The window manager's own IPC commands and reports.
use vstd::prelude::*;
use crate::config::state::DEFAULT_RESIZE_AMOUNT;
use crate::ipc::protocol::{CommandArgs, FocusedInfo, MonitorInfo, Response, ResponseData, TreeInfo, WorkspaceInfo, WorkspaceTree};
use crate::text::{chars_are, chars_of, str_eq};
use crate::wm::actions::{focused_monitor_by, moved_to_monitor, moved_to_workspace, toggled_floating};
use crate::wm::manager::{switched, Effect, WindowManager};
use crate::wm::monitor::Monitor;
use crate::wm::navigate::{equalized, focused_direction, resized_direction, swapped_direction};
use crate::wm::tree::XWindow;
use crate::wm::workspace::Workspace;
use crate::x11::events::{parse_direction, spec_parse_direction};

verus! {

broadcast use vstd::std_specs::hash::group_hash_axioms;

fn copy_windows(v: &Vec<XWindow>) -> (r: Vec<XWindow>)
    ensures
        r@ == v@,
{
    let mut r: Vec<XWindow> = Vec::new();
    let mut i: usize = 0;
    while i < v.len()
        invariant
            i <= v@.len(),
            r@ == v@.subrange(0, i as int),
        decreases v@.len() - i,
    {
        r.push(v[i]);
        assert(v@.subrange(0, i + 1) =~= v@.subrange(0, i as int).push(v@[i as int]));
        i = i + 1;
    }
    assert(v@.subrange(0, v@.len() as int) =~= v@);
    r
}

/// Workspace `i` as `get_workspaces` reports it.
pub open spec fn workspace_report_of(ws: Workspace, i: int, focused_ws: int, info: WorkspaceInfo) -> bool {
    &&& info.id == ws.id
    &&& info.name@ == ws.name@
    &&& info.focused == (i == focused_ws)
    &&& info.tiled_count == ws.tree.window_seq().len()
    &&& info.floating_count == ws.floating@.len()
}

/// Workspace `ws` as `get_tree` reports it.
pub open spec fn workspace_tree_of(ws: Workspace, t: WorkspaceTree) -> bool {
    &&& t.id == ws.id
    &&& t.name@ == ws.name@
    &&& t.tiled@ == ws.tree.window_seq()
    &&& t.floating@ == ws.floating@
}

/// Monitor `m` as `get_monitors` reports it, workspaces counted from 1.
pub open spec fn monitor_report_of(mon: Monitor, m: int, focused_mon: int, info: MonitorInfo) -> bool {
    &&& info.name@ == mon.name@
    &&& info.focused == (m == focused_mon)
    &&& info.primary == mon.primary
    &&& info.geometry == mon.geometry
    &&& info.workspaces@ == mon.workspaces@.map_values(|w: usize| (w + 1) as usize)
    &&& info.active_workspace == mon.active_workspace + 1
}

/// What `get_focused` reports: the focused window, when it is managed.
pub open spec fn focused_report_of(o: WindowManager) -> Option<FocusedInfo> {
    match o.focused_window {
        Some(w) => if o.windows@.contains_key(w) {
            Some(FocusedInfo { id: w, workspace: (o.windows@[w].workspace + 1) as usize, floating: o.windows@[w].floating })
        } else {
            None
        },
        None => None,
    }
}

impl WindowManager {
    /// Every workspace as `get_workspaces` reports it.
    pub fn workspaces_report(&self) -> (v: Vec<WorkspaceInfo>)
        requires
            self.wf(),
        ensures
            v@.len() == self.workspaces@.len(),
            forall|i: int| 0 <= i < v@.len() ==> workspace_report_of(self.workspaces@[i], i, self.focused_workspace as int, #[trigger] v@[i]),
    {
        let mut v: Vec<WorkspaceInfo> = Vec::new();
        let mut i: usize = 0;
        while i < self.workspaces.len()
            invariant
                i <= self.workspaces@.len(),
                v@.len() == i,
                forall|j: int| 0 <= j < i ==> workspace_report_of(self.workspaces@[j], j, self.focused_workspace as int, #[trigger] v@[j]),
            decreases self.workspaces@.len() - i,
        {
            let ws = &self.workspaces[i];
            let tiled = ws.tree.windows();
            v.push(WorkspaceInfo {
                id: ws.id,
                name: ws.name.clone(),
                focused: i == self.focused_workspace,
                tiled_count: tiled.len(),
                floating_count: ws.floating.len(),
            });
            i = i + 1;
        }
        v
    }

    /// The focused window as `get_focused` reports it.
    pub fn focused_report(&self) -> (r: Option<FocusedInfo>)
        requires
            self.wf(),
        ensures
            r == focused_report_of(*self),
    {
        match self.focused_window {
            Some(w) => match self.windows.get(&w) {
                Some(win) => Some(FocusedInfo { id: w, workspace: win.workspace + 1, floating: win.floating }),
                None => None,
            },
            None => None,
        }
    }

    /// The windows of every workspace as `get_tree` reports them.
    pub fn tree_report(&self) -> (t: TreeInfo)
        requires
            self.wf(),
        ensures
            t.focused_workspace == self.focused_workspace + 1,
            t.workspaces@.len() == self.workspaces@.len(),
            forall|i: int| 0 <= i < t.workspaces@.len() ==> workspace_tree_of(self.workspaces@[i], #[trigger] t.workspaces@[i]),
    {
        let mut v: Vec<WorkspaceTree> = Vec::new();
        let mut i: usize = 0;
        while i < self.workspaces.len()
            invariant
                i <= self.workspaces@.len(),
                v@.len() == i,
                forall|j: int| 0 <= j < i ==> workspace_tree_of(self.workspaces@[j], #[trigger] v@[j]),
            decreases self.workspaces@.len() - i,
        {
            let ws = &self.workspaces[i];
            v.push(WorkspaceTree {
                id: ws.id,
                name: ws.name.clone(),
                tiled: ws.tree.windows(),
                floating: copy_windows(&ws.floating),
            });
            i = i + 1;
        }
        TreeInfo { focused_workspace: self.focused_workspace + 1, workspaces: v }
    }

    /// Every monitor as `get_monitors` reports it.
    pub fn monitors_report(&self) -> (v: Vec<MonitorInfo>)
        requires
            self.wf(),
        ensures
            v@.len() == self.monitors@.len(),
            forall|m: int| 0 <= m < v@.len() ==> monitor_report_of(self.monitors@[m], m, self.focused_monitor as int, #[trigger] v@[m]),
    {
        let mut v: Vec<MonitorInfo> = Vec::new();
        let mut m: usize = 0;
        while m < self.monitors.len()
            invariant
                self.wf(),
                m <= self.monitors@.len(),
                v@.len() == m,
                forall|k: int| 0 <= k < m ==> monitor_report_of(self.monitors@[k], k, self.focused_monitor as int, #[trigger] v@[k]),
            decreases self.monitors@.len() - m,
        {
            let mon = &self.monitors[m];
            let mut ids: Vec<usize> = Vec::new();
            let mut k: usize = 0;
            while k < mon.workspaces.len()
                invariant
                    self.wf(),
                    m < self.monitors@.len(),
                    *mon == self.monitors@[m as int],
                    k <= mon.workspaces@.len(),
                    ids@ == mon.workspaces@.subrange(0, k as int).map_values(|w: usize| (w + 1) as usize),
                decreases mon.workspaces@.len() - k,
            {
                assert(mon.workspaces@[k as int] < self.workspaces@.len());
                ids.push(mon.workspaces[k] + 1);
                assert(mon.workspaces@.subrange(0, k + 1).map_values(|w: usize| (w + 1) as usize)
                    =~= mon.workspaces@.subrange(0, k as int).map_values(|w: usize| (w + 1) as usize).push((mon.workspaces@[k as int] + 1) as usize));
                k = k + 1;
            }
            assert(mon.workspaces@.subrange(0, mon.workspaces@.len() as int) =~= mon.workspaces@);
            v.push(MonitorInfo {
                name: mon.name.clone(),
                focused: m == self.focused_monitor,
                primary: mon.primary,
                geometry: mon.geometry,
                workspaces: ids,
                active_workspace: mon.active_workspace + 1,
            });
            m = m + 1;
        }
        v
    }
}

/// The commands of the protocol.
#[derive(Debug, Clone, Copy, PartialEq, Eq, Structural)]
pub enum IpcCommand {
    Focus,
    Swap,
    Resize,
    Close,
    Workspace,
    MoveToWorkspace,
    ToggleFloating,
    Equalize,
    RefreshLayout,
    Reload,
    Exit,
    GetWorkspaces,
    GetFocused,
    GetTree,
    Subscribe,
    FocusMonitor,
    MoveToMonitor,
    GetMonitors,
}

/// The command a name stands for.
pub open spec fn spec_ipc_command(name: Seq<char>) -> Option<IpcCommand> {
    if name == "focus"@ { Some(IpcCommand::Focus) }
    else if name == "swap"@ { Some(IpcCommand::Swap) }
    else if name == "resize"@ { Some(IpcCommand::Resize) }
    else if name == "close"@ { Some(IpcCommand::Close) }
    else if name == "workspace"@ { Some(IpcCommand::Workspace) }
    else if name == "move_to_workspace"@ { Some(IpcCommand::MoveToWorkspace) }
    else if name == "toggle_floating"@ { Some(IpcCommand::ToggleFloating) }
    else if name == "equalize"@ { Some(IpcCommand::Equalize) }
    else if name == "refresh_layout"@ { Some(IpcCommand::RefreshLayout) }
    else if name == "reload"@ { Some(IpcCommand::Reload) }
    else if name == "exit"@ { Some(IpcCommand::Exit) }
    else if name == "get_workspaces"@ { Some(IpcCommand::GetWorkspaces) }
    else if name == "get_focused"@ { Some(IpcCommand::GetFocused) }
    else if name == "get_tree"@ { Some(IpcCommand::GetTree) }
    else if name == "subscribe"@ { Some(IpcCommand::Subscribe) }
    else if name == "focus_monitor"@ { Some(IpcCommand::FocusMonitor) }
    else if name == "move_to_monitor"@ { Some(IpcCommand::MoveToMonitor) }
    else if name == "get_monitors"@ { Some(IpcCommand::GetMonitors) }
    else { None }
}

impl IpcCommand {
    pub fn parse(name: &str) -> (c: Option<IpcCommand>)
        ensures
            c == spec_ipc_command(name@),
    {
        if str_eq(name, "focus") { Some(IpcCommand::Focus) }
        else if str_eq(name, "swap") { Some(IpcCommand::Swap) }
        else if str_eq(name, "resize") { Some(IpcCommand::Resize) }
        else if str_eq(name, "close") { Some(IpcCommand::Close) }
        else if str_eq(name, "workspace") { Some(IpcCommand::Workspace) }
        else if str_eq(name, "move_to_workspace") { Some(IpcCommand::MoveToWorkspace) }
        else if str_eq(name, "toggle_floating") { Some(IpcCommand::ToggleFloating) }
        else if str_eq(name, "equalize") { Some(IpcCommand::Equalize) }
        else if str_eq(name, "refresh_layout") { Some(IpcCommand::RefreshLayout) }
        else if str_eq(name, "reload") { Some(IpcCommand::Reload) }
        else if str_eq(name, "exit") { Some(IpcCommand::Exit) }
        else if str_eq(name, "get_workspaces") { Some(IpcCommand::GetWorkspaces) }
        else if str_eq(name, "get_focused") { Some(IpcCommand::GetFocused) }
        else if str_eq(name, "get_tree") { Some(IpcCommand::GetTree) }
        else if str_eq(name, "subscribe") { Some(IpcCommand::Subscribe) }
        else if str_eq(name, "focus_monitor") { Some(IpcCommand::FocusMonitor) }
        else if str_eq(name, "move_to_monitor") { Some(IpcCommand::MoveToMonitor) }
        else if str_eq(name, "get_monitors") { Some(IpcCommand::GetMonitors) }
        else { None }
    }
}

/// The characters of an optional string argument, `default` when absent.
pub open spec fn arg_or(a: Option<String>, default: Seq<char>) -> Seq<char> {
    match a {
        Some(s) => s@,
        None => default,
    }
}

/// The workspace index a `number` argument (counted from 1, default 1) names.
pub open spec fn number_arg(n: Option<u64>) -> usize {
    let k = match n { Some(v) => v as usize, None => 1usize };
    if k == 0 { 0 } else { (k - 1) as usize }
}

/// A plain success, with no data.
pub open spec fn plain_success(r: Response) -> bool {
    r.success && r.data is None && r.error is None
}

/// A failure carrying `msg`.
pub open spec fn failure(r: Response, msg: Seq<char>) -> bool {
    &&& !r.success
    &&& r.data is None
    &&& (r.error matches Some(e) && e@ == msg)
}

/// Carrying out command `cmd` with `args` from `o` gives `f`, the
/// response `r` and `effects`. A direction that is not one fails with
/// `Invalid direction: ` and the argument; closing or floating without a
/// focused window fails with `No focused window`.
pub open spec fn ipc_command_done(o: WindowManager, f: WindowManager, cmd: IpcCommand, args: CommandArgs, r: Response, effects: Seq<Effect>) -> bool {
    let dir = arg_or(args.direction, Seq::empty());
    let unchanged = f == o && effects.len() == 0;
    match cmd {
        IpcCommand::Focus | IpcCommand::Swap | IpcCommand::Resize => match spec_parse_direction(dir) {
            None => unchanged && failure(r, "Invalid direction: "@ + dir),
            Some(d) => plain_success(r) && match cmd {
                IpcCommand::Focus => focused_direction(o, f, d, effects),
                IpcCommand::Swap => swapped_direction(o, f, d, effects),
                _ => resized_direction(o, f, d, match args.amount { Some(a) => a, None => DEFAULT_RESIZE_AMOUNT }, effects),
            },
        },
        IpcCommand::Close => match o.focused_window {
            None => unchanged && failure(r, "No focused window"@),
            Some(w) => plain_success(r) && f == o && effects =~= (if o.windows@.contains_key(w) { seq![Effect::Close(w)] } else { Seq::empty() }),
        },
        IpcCommand::Workspace => plain_success(r) && switched(o, f, number_arg(args.number), true, effects),
        IpcCommand::MoveToWorkspace => plain_success(r) && moved_to_workspace(o, f, number_arg(args.number), effects),
        IpcCommand::ToggleFloating => match o.focused_window {
            None => unchanged && failure(r, "No focused window"@),
            Some(w) => plain_success(r) && toggled_floating(o, f, w, effects),
        },
        IpcCommand::Equalize => plain_success(r) && equalized(o, f, effects),
        IpcCommand::RefreshLayout => plain_success(r) && f == o && effects =~= seq![Effect::ApplyLayout],
        IpcCommand::Reload => plain_success(r) && f == o && effects =~= seq![Effect::Reload],
        IpcCommand::Exit => plain_success(r) && f == WindowManager { running: false, ..o } && effects.len() == 0,
        IpcCommand::GetWorkspaces => unchanged && r.success && r.error is None && (r.data matches Some(ResponseData::Workspaces(v)) && {
            &&& v@.len() == o.workspaces@.len()
            &&& forall|i: int| 0 <= i < v@.len() ==> workspace_report_of(o.workspaces@[i], i, o.focused_workspace as int, #[trigger] v@[i])
        }),
        IpcCommand::GetFocused => unchanged && r.success && r.error is None && r.data == Some(ResponseData::Focused(focused_report_of(o))),
        IpcCommand::GetTree => unchanged && r.success && r.error is None && (r.data matches Some(ResponseData::Tree(t)) && {
            &&& t.focused_workspace == o.focused_workspace + 1
            &&& t.workspaces@.len() == o.workspaces@.len()
            &&& forall|i: int| 0 <= i < t.workspaces@.len() ==> workspace_tree_of(o.workspaces@[i], #[trigger] t.workspaces@[i])
        }),
        IpcCommand::Subscribe => unchanged && plain_success(r),
        IpcCommand::FocusMonitor => plain_success(r) && focused_monitor_by(o, f, arg_or(args.target, "next"@), effects),
        IpcCommand::MoveToMonitor => plain_success(r) && moved_to_monitor(o, f, arg_or(args.target, "next"@), effects),
        IpcCommand::GetMonitors => unchanged && r.success && r.error is None && (r.data matches Some(ResponseData::Monitors(v)) && {
            &&& v@.len() == o.monitors@.len()
            &&& forall|m: int| 0 <= m < v@.len() ==> monitor_report_of(o.monitors@[m], m, o.focused_monitor as int, #[trigger] v@[m])
        }),
    }
}

fn text_or(a: Option<String>, default: &str) -> (s: String)
    ensures
        s@ == arg_or(a, default@),
{
    match a {
        Some(x) => x,
        None => String::from_str(default),
    }
}

fn number_of(n: Option<u64>) -> (i: usize)
    ensures
        i == number_arg(n),
{
    let k: usize = match n {
        Some(v) => v as usize,
        None => 1,
    };
    if k == 0 { 0 } else { k - 1 }
}

impl WindowManager {
    fn run_direction_command(&mut self, cmd: IpcCommand, args: CommandArgs) -> (res: (Response, Vec<Effect>))
        requires
            old(self).wf(),
            cmd == IpcCommand::Focus || cmd == IpcCommand::Swap || cmd == IpcCommand::Resize,
        ensures
            final(self).wf(),
            ipc_command_done(*old(self), *final(self), cmd, args, res.0, res.1@),
    {
        let amount = args.amount;
        let dir = text_or(args.direction, "");
        proof {
            reveal_strlit("");
            assert(""@ =~= Seq::<char>::empty());
        }
        match parse_direction(dir.as_str()) {
            None => {
                let msg = String::from_str("Invalid direction: ").concat(dir.as_str());
                (Response::error(msg), Vec::new())
            },
            Some(d) => {
                let effects = match cmd {
                    IpcCommand::Focus => self.focus_direction(d),
                    IpcCommand::Swap => self.swap_direction(d),
                    _ => {
                        let a = match amount {
                            Some(a) => a,
                            None => DEFAULT_RESIZE_AMOUNT,
                        };
                        self.resize_direction(d, a)
                    },
                };
                (Response::success(None), effects)
            },
        }
    }

    /// Carry out a protocol command (see `ipc_command_done`); an unknown
    /// name fails with `Unknown command: ` and the name.
    pub fn dispatch_ipc_command(&mut self, command: &str, args: CommandArgs) -> (res: (Response, Vec<Effect>))
        requires
            old(self).wf(),
            old(self).spec_unmap_room(1 + old(self).shown_window_count()),
        ensures
            final(self).wf(),
            match spec_ipc_command(command@) {
                Some(cmd) => ipc_command_done(*old(self), *final(self), cmd, args, res.0, res.1@),
                None => *final(self) == *old(self) && res.1@.len() == 0 && failure(res.0, "Unknown command: "@ + command@),
            },
    {
        let cmd = match IpcCommand::parse(command) {
            Some(c) => c,
            None => {
                let msg = String::from_str("Unknown command: ").concat(command);
                return (Response::error(msg), Vec::new());
            },
        };
        match cmd {
            IpcCommand::Focus | IpcCommand::Swap | IpcCommand::Resize => self.run_direction_command(cmd, args),
            IpcCommand::Close => match self.focused_window {
                None => (Response::error(String::from_str("No focused window")), Vec::new()),
                Some(w) => {
                    let mut effects: Vec<Effect> = Vec::new();
                    if self.windows.contains_key(&w) {
                        effects.push(Effect::Close(w));
                    }
                    (Response::success(None), effects)
                },
            },
            IpcCommand::Workspace => {
                let idx = number_of(args.number);
                let effects = self.switch_workspace(idx);
                (Response::success(None), effects)
            },
            IpcCommand::MoveToWorkspace => {
                let idx = number_of(args.number);
                let effects = self.move_to_workspace(idx);
                (Response::success(None), effects)
            },
            IpcCommand::ToggleFloating => match self.focused_window {
                None => (Response::error(String::from_str("No focused window")), Vec::new()),
                Some(w) => {
                    let effects = self.toggle_floating(w);
                    (Response::success(None), effects)
                },
            },
            IpcCommand::Equalize => {
                let effects = self.equalize();
                (Response::success(None), effects)
            },
            IpcCommand::RefreshLayout => {
                let mut effects: Vec<Effect> = Vec::new();
                effects.push(Effect::ApplyLayout);
                (Response::success(None), effects)
            },
            IpcCommand::Reload => {
                let mut effects: Vec<Effect> = Vec::new();
                effects.push(Effect::Reload);
                (Response::success(None), effects)
            },
            IpcCommand::Exit => {
                self.running = false;
                (Response::success(None), Vec::new())
            },
            IpcCommand::GetWorkspaces => (Response::success(Some(ResponseData::Workspaces(self.workspaces_report()))), Vec::new()),
            IpcCommand::GetFocused => (Response::success(Some(ResponseData::Focused(self.focused_report()))), Vec::new()),
            IpcCommand::GetTree => (Response::success(Some(ResponseData::Tree(self.tree_report()))), Vec::new()),
            IpcCommand::Subscribe => (Response::success(None), Vec::new()),
            IpcCommand::FocusMonitor => {
                let t = text_or(args.target, "next");
                let effects = self.focus_monitor(t.as_str());
                (Response::success(None), effects)
            },
            IpcCommand::MoveToMonitor => {
                let t = text_or(args.target, "next");
                let effects = self.move_to_monitor(t.as_str());
                (Response::success(None), effects)
            },
            IpcCommand::GetMonitors => (Response::success(Some(ResponseData::Monitors(self.monitors_report()))), Vec::new()),
        }
    }
}

} // verus!
