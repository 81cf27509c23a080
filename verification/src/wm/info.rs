//! Reports on the state for the IPC servers.
use vstd::prelude::*;
use vstd::utf8::{decode_utf8, decode_utf8_encode_utf8, encode_utf8_decode_utf8, valid_utf8};
use crate::ipc::i3_compat::{str_from_utf8, MessageType};
use crate::ipc::i3_server::{
    run_command_reply, unsupported_reply, version_info, OutputInfo, Rect as I3Rect, VersionInfo, WorkspaceEvent,
    WorkspaceInfo,
};
use crate::wm::dispatch::i3_command_target;
use crate::wm::manager::{switched, Effect};
use crate::wm::dispatch::occupied;
use crate::wm::manager::{showing_monitor, WindowManager};
use crate::wm::tree::{Rect, XWindow};
use crate::wm::window::Window;

verus! {

broadcast use vstd::std_specs::hash::group_hash_axioms;

/// A rectangle as i3 reports it.
pub open spec fn i3_rect(r: Rect) -> I3Rect {
    I3Rect { x: r.x as i32, y: r.y as i32, width: r.width as i32, height: r.height as i32 }
}

fn i3_rect_of(r: Rect) -> (o: I3Rect)
    ensures
        o == i3_rect(r),
{
    I3Rect { x: r.x as i32, y: r.y as i32, width: r.width as i32, height: r.height as i32 }
}

/// Some managed window on workspace `i` is urgent.
pub open spec fn urgent_on(windows: Map<XWindow, Window>, i: usize) -> bool {
    exists|w: XWindow| #[trigger] windows.contains_key(w) && windows[w].workspace == i && windows[w].urgent
}

impl WindowManager {
    /// Workspace `i` is reported to i3 clients: shown on a monitor or holding a window.
    pub open spec fn i3_listed(&self, i: int) -> bool {
        showing_monitor(self.monitors@, i as usize) is Some || occupied(self.workspaces@[i])
    }

    /// The workspaces reported among the first `k`, in order.
    pub open spec fn i3_listed_upto(&self, k: int) -> Seq<int>
        decreases k,
    {
        if k <= 0 {
            Seq::empty()
        } else if self.i3_listed(k - 1) {
            self.i3_listed_upto(k - 1).push(k - 1)
        } else {
            self.i3_listed_upto(k - 1)
        }
    }

    /// How workspace `i` is reported: numbered from 1 with an id of a
    /// million times that, visible when a monitor shows it, focused when
    /// the focused monitor does, urgent when one of its windows is, with the
    /// geometry and name of the first monitor showing it (else the focused
    /// monitor's).
    pub open spec fn i3_info_of(&self, i: int, info: WorkspaceInfo) -> bool {
        let mon = showing_monitor(self.monitors@, i as usize);
        let m = match mon { Some(k) => k, None => self.focused_monitor as int };
        &&& info.id == (i + 1) * 1000000
        &&& info.num == i + 1
        &&& info.name@ == self.workspaces@[i].name@
        &&& info.visible == (mon is Some)
        &&& info.focused == (self.monitors@[self.focused_monitor as int].active_workspace == i)
        &&& info.urgent == urgent_on(self.windows@, i as usize)
        &&& info.rect == i3_rect(self.monitors@[m].geometry)
        &&& info.output@ == self.monitors@[m].name@
    }

    /// Whether a managed window on workspace `ws` is urgent.
    pub fn any_urgent_on(&self, ws: usize) -> (b: bool)
        ensures
            b == urgent_on(self.windows@, ws),
    {
        let mut found = false;
        for kv in it: self.windows.iter()
            invariant
                found ==> urgent_on(self.windows@, ws),
                !found ==> forall|j: int| 0 <= j < it.index() ==> !(#[trigger] it.seq()[j]).1.urgent || it.seq()[j].1.workspace != ws,
                forall|j: int| 0 <= j < it.seq().len() ==> self.windows@.contains_key(*(#[trigger] it.seq()[j]).0)
                    && self.windows@[*it.seq()[j].0] == *it.seq()[j].1,
                forall|k: XWindow| #[trigger] self.windows@.contains_key(k) ==> it.seq().contains((&k, &self.windows@[k])),
        {
            let (k, v) = kv;
            if v.workspace == ws && v.urgent {
                assert(self.windows@.contains_key(*k) && self.windows@[*k] == *v);
                found = true;
            }
        }
        found
    }
}

/// Output `m` as `GET_OUTPUTS` reports it: active, named and placed as the
/// monitor, with the name of the workspace it shows.
pub open spec fn output_info_of(o: WindowManager, m: int, info: OutputInfo) -> bool {
    let mon = o.monitors@[m];
    &&& info.name@ == mon.name@
    &&& info.active
    &&& info.primary == mon.primary
    &&& info.current_workspace matches Some(n) && n@ == o.workspaces@[mon.active_workspace as int].name@
    &&& info.rect == i3_rect(mon.geometry)
}

impl WindowManager {
    fn i3_workspace_info(&self, i: usize) -> (info: WorkspaceInfo)
        requires
            self.wf(),
            i < self.workspaces@.len(),
        ensures
            self.i3_info_of(i as int, info),
    {
        let mon = self.showing_monitor_of(i);
        let visible = mon.is_some();
        let m = match mon {
            Some(k) => k,
            None => self.focused_monitor,
        };
        let focused = self.monitors[self.focused_monitor].active_workspace == i;
        let urgent = self.any_urgent_on(i);
        WorkspaceInfo {
            id: (i as i64 + 1) * 1000000,
            num: (i + 1) as i32,
            name: self.workspaces[i].name.clone(),
            visible,
            focused,
            urgent,
            rect: i3_rect_of(self.monitors[m].geometry),
            output: self.monitors[m].name.clone(),
        }
    }

    /// The workspaces i3 clients are told of: those a monitor shows or that
    /// hold a window, in order (see `i3_info_of`).
    pub fn build_i3_workspaces(&self) -> (v: Vec<WorkspaceInfo>)
        requires
            self.wf(),
        ensures
            v@.len() == self.i3_listed_upto(self.workspaces@.len() as int).len(),
            forall|j: int| 0 <= j < v@.len() ==> self.i3_info_of(self.i3_listed_upto(self.workspaces@.len() as int)[j], #[trigger] v@[j]),
    {
        let mut v: Vec<WorkspaceInfo> = Vec::new();
        let mut i: usize = 0;
        while i < self.workspaces.len()
            invariant
                self.wf(),
                i <= self.workspaces@.len(),
                v@.len() == self.i3_listed_upto(i as int).len(),
                forall|j: int| 0 <= j < v@.len() ==> self.i3_info_of(self.i3_listed_upto(i as int)[j], #[trigger] v@[j]),
            decreases self.workspaces@.len() - i,
        {
            let shown = self.showing_monitor_of(i).is_some();
            let has = self.workspaces[i].has_windows();
            if shown || has {
                let info = self.i3_workspace_info(i);
                v.push(info);
            }
            i = i + 1;
        }
        v
    }

    /// Every monitor as i3 clients are told of it, in order (see `output_info_of`).
    pub fn build_i3_outputs(&self) -> (v: Vec<OutputInfo>)
        requires
            self.wf(),
        ensures
            v@.len() == self.monitors@.len(),
            forall|m: int| 0 <= m < v@.len() ==> output_info_of(*self, m, #[trigger] v@[m]),
    {
        let mut v: Vec<OutputInfo> = Vec::new();
        let mut m: usize = 0;
        while m < self.monitors.len()
            invariant
                self.wf(),
                m <= self.monitors@.len(),
                v@.len() == m,
                forall|k: int| 0 <= k < v@.len() ==> output_info_of(*self, k, #[trigger] v@[k]),
            decreases self.monitors@.len() - m,
        {
            let mon = &self.monitors[m];
            let info = OutputInfo {
                name: mon.name.clone(),
                active: true,
                primary: mon.primary,
                current_workspace: Some(self.workspaces[mon.active_workspace].name.clone()),
                rect: i3_rect_of(mon.geometry),
            };
            v.push(info);
            m = m + 1;
        }
        v
    }
}

impl WindowManager {
    /// How workspace `idx` is reported to i3 clients, when it is listed.
    pub fn i3_workspace_report(&self, idx: usize) -> (r: Option<WorkspaceInfo>)
        requires
            self.wf(),
        ensures
            r is Some <==> (idx < self.workspaces@.len() && self.i3_listed(idx as int)),
            r matches Some(info) ==> self.i3_info_of(idx as int, info),
    {
        if idx >= self.workspaces.len() {
            return None;
        }
        let shown = self.showing_monitor_of(idx).is_some();
        let has = self.workspaces[idx].has_windows();
        if shown || has {
            Some(self.i3_workspace_info(idx))
        } else {
            None
        }
    }

    /// The workspace event for a change of focus to `idx` from `old`:
    /// nothing when `idx` is not listed; the old workspace only when it is.
    pub fn build_workspace_event(&self, change: String, idx: usize, old: Option<usize>) -> (r: Option<WorkspaceEvent>)
        requires
            self.wf(),
        ensures
            r is Some <==> (idx < self.workspaces@.len() && self.i3_listed(idx as int)),
            r matches Some(e) ==> {
                &&& e.change@ == change@
                &&& self.i3_info_of(idx as int, e.current)
                &&& match old {
                    Some(o) => if o < self.workspaces@.len() && self.i3_listed(o as int) {
                        e.old matches Some(oi) && self.i3_info_of(o as int, oi)
                    } else {
                        e.old is None
                    },
                    None => e.old is None,
                }
            },
    {
        match self.i3_workspace_report(idx) {
            None => None,
            Some(current) => {
                let old_info = match old {
                    Some(o) => self.i3_workspace_report(o),
                    None => None,
                };
                Some(WorkspaceEvent { change, current, old: old_info })
            },
        }
    }
}


/// What the i3-compatible server answers a request with.
#[derive(Debug)]
pub enum I3Answer {
    /// `GET_WORKSPACES`: the workspaces listed.
    Workspaces(Vec<WorkspaceInfo>),
    /// `GET_OUTPUTS`: every monitor.
    Outputs(Vec<OutputInfo>),
    /// `SUBSCRIBE`: the events the payload lists are to be recorded for
    /// the client, which is told of its success.
    Subscribe,
    /// `GET_VERSION`.
    Version(VersionInfo),
    /// A reply already written: that of a `RUN_COMMAND`, or of a request
    /// type the server does not handle.
    Text(String),
}

/// The command a `RUN_COMMAND` payload holds: its text when it is UTF-8,
/// else nothing.
pub open spec fn i3_payload_command(payload: Seq<u8>) -> Seq<char> {
    if valid_utf8(payload) { decode_utf8(payload) } else { Seq::empty() }
}

impl WindowManager {
    /// Answer an i3 request of type `msg_type` (see `I3Answer`): a
    /// `RUN_COMMAND` (type 0) switches workspace as `execute_i3_command`
    /// says and is answered with its success; `GET_WORKSPACES` (1),
    /// `SUBSCRIBE` (2), `GET_OUTPUTS` (3) and `GET_VERSION` (7) are answered
    /// with what they ask for; any other type is unsupported. Only a
    /// `RUN_COMMAND` changes the state.
    pub fn answer_i3(&mut self, msg_type: u32, payload: &[u8]) -> (res: (I3Answer, Vec<Effect>))
        requires
            old(self).wf(),
            old(self).spec_unmap_room(old(self).shown_window_count()),
        ensures
            final(self).wf(),
            msg_type != 0 ==> *final(self) == *old(self) && res.1@.len() == 0,
            msg_type == 0 ==> {
                let cmd = i3_payload_command(payload@);
                let target = i3_command_target(old(self).workspaces@, cmd);
                &&& res.0 matches I3Answer::Text(s) && s@ == (if target is Some {
                    "[{\"success\":true}]"@
                } else {
                    "[{\"success\":false,\"error\":\"command failed\"}]"@
                })
                &&& match target {
                    Some(idx) => switched(*old(self), *final(self), idx as usize, false, res.1@),
                    None => *final(self) == *old(self) && res.1@.len() == 0,
                }
            },
            msg_type == 1 ==> (res.0 matches I3Answer::Workspaces(v) && {
                &&& v@.len() == old(self).i3_listed_upto(old(self).workspaces@.len() as int).len()
                &&& forall|j: int| 0 <= j < v@.len() ==> old(self).i3_info_of(old(self).i3_listed_upto(old(self).workspaces@.len() as int)[j], #[trigger] v@[j])
            }),
            msg_type == 2 ==> res.0 is Subscribe,
            msg_type == 3 ==> (res.0 matches I3Answer::Outputs(v) && {
                &&& v@.len() == old(self).monitors@.len()
                &&& forall|m: int| 0 <= m < v@.len() ==> output_info_of(*old(self), m, #[trigger] v@[m])
            }),
            msg_type == 7 ==> (res.0 matches I3Answer::Version(v) && {
                &&& v.major == 0 && v.minor == 1 && v.patch == 0
                &&& v.human_readable@ == "gar 0.1.0 (i3-compat)"@
                &&& v.loaded_config_file_name@ == "~/.config/gar/init.lua"@
            }),
            msg_type != 0 && msg_type != 1 && msg_type != 2 && msg_type != 3 && msg_type != 7 ==>
                (res.0 matches I3Answer::Text(s) && s@ == "{\"success\":false,\"error\":\"unsupported\"}"@),
    {
        match MessageType::from_u32(msg_type) {
            Some(MessageType::RunCommand) => {
                let cmd: &str = match str_from_utf8(payload) {
                    Ok(s) => s,
                    Err(_) => "",
                };
                proof {
                    if valid_utf8(payload@) {
                        decode_utf8_encode_utf8(payload@);
                        encode_utf8_decode_utf8(cmd@);
                    } else {
                        reveal_strlit("");
                    }
                    assert(cmd@ == i3_payload_command(payload@));
                }
                let (success, effects) = self.execute_i3_command(cmd);
                (I3Answer::Text(run_command_reply(success)), effects)
            },
            Some(MessageType::GetWorkspaces) => (I3Answer::Workspaces(self.build_i3_workspaces()), Vec::new()),
            Some(MessageType::Subscribe) => (I3Answer::Subscribe, Vec::new()),
            Some(MessageType::GetOutputs) => (I3Answer::Outputs(self.build_i3_outputs()), Vec::new()),
            Some(MessageType::GetVersion) => (I3Answer::Version(version_info()), Vec::new()),
            _ => (I3Answer::Text(unsupported_reply()), Vec::new()),
        }
    }
}

} // verus!
