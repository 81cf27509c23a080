//! What the i3-compatible server answers: workspace, output and version
//! records, and the fixed replies.
use vstd::prelude::*;

verus! {

/// A rectangle as i3 reports it.
#[derive(Debug, Clone, Copy, PartialEq, Eq, Structural)]
pub struct Rect {
    pub x: i32,
    pub y: i32,
    pub width: i32,
    pub height: i32,
}

/// A workspace as `GET_WORKSPACES` reports it.
#[derive(Debug, Clone)]
pub struct WorkspaceInfo {
    pub id: i64,
    pub num: i32,
    pub name: String,
    pub visible: bool,
    pub focused: bool,
    pub urgent: bool,
    pub rect: Rect,
    pub output: String,
}

/// An output as `GET_OUTPUTS` reports it.
#[derive(Debug, Clone)]
pub struct OutputInfo {
    pub name: String,
    pub active: bool,
    pub primary: bool,
    pub current_workspace: Option<String>,
    pub rect: Rect,
}

/// What `GET_VERSION` reports.
#[derive(Debug, Clone)]
pub struct VersionInfo {
    pub major: i32,
    pub minor: i32,
    pub patch: i32,
    pub human_readable: String,
    pub loaded_config_file_name: String,
}

/// A workspace event: what changed, the workspace now focused, and the
/// one focused before when known.
#[derive(Debug, Clone)]
pub struct WorkspaceEvent {
    pub change: String,
    pub current: WorkspaceInfo,
    pub old: Option<WorkspaceInfo>,
}

/// The output event sent on a monitor change.
pub fn build_output_event_json() -> (s: String)
    ensures
        s@ == "{\"change\":\"unspecified\"}"@,
{
    String::from_str("{\"change\":\"unspecified\"}")
}

/// The reply to a `SUBSCRIBE` request.
pub fn build_subscribe_success_json() -> (s: String)
    ensures
        s@ == "{\"success\":true}"@,
{
    String::from_str("{\"success\":true}")
}

/// What `GET_VERSION` reports: version 0.1.0.
pub fn version_info() -> (v: VersionInfo)
    ensures
        v.major == 0,
        v.minor == 1,
        v.patch == 0,
        v.human_readable@ == "gar 0.1.0 (i3-compat)"@,
        v.loaded_config_file_name@ == "~/.config/gar/init.lua"@,
{
    VersionInfo {
        major: 0,
        minor: 1,
        patch: 0,
        human_readable: String::from_str("gar 0.1.0 (i3-compat)"),
        loaded_config_file_name: String::from_str("~/.config/gar/init.lua"),
    }
}

/// The reply to a `RUN_COMMAND`: success, or failure of the command.
pub fn run_command_reply(success: bool) -> (s: String)
    ensures
        success ==> s@ == "[{\"success\":true}]"@,
        !success ==> s@ == "[{\"success\":false,\"error\":\"command failed\"}]"@,
{
    if success {
        String::from_str("[{\"success\":true}]")
    } else {
        String::from_str("[{\"success\":false,\"error\":\"command failed\"}]")
    }
}

/// The reply to a request type the server does not handle.
pub fn unsupported_reply() -> (s: String)
    ensures
        s@ == "{\"success\":false,\"error\":\"unsupported\"}"@,
{
    String::from_str("{\"success\":false,\"error\":\"unsupported\"}")
}

/// An idle client (one that never sent a message and subscribed to
/// nothing) is stale once it has been connected longer than the timeout.
pub open spec fn spec_is_stale(has_subscriptions: bool, has_sent: bool, connected_secs: u64, timeout_secs: u64) -> bool {
    !has_subscriptions && !has_sent && connected_secs > timeout_secs
}

/// Whether a client is to be dropped (see `spec_is_stale`).
pub fn is_stale(has_subscriptions: bool, has_sent: bool, connected_secs: u64, timeout_secs: u64) -> (b: bool)
    ensures
        b == spec_is_stale(has_subscriptions, has_sent, connected_secs, timeout_secs),
{
    if has_subscriptions {
        return false;
    }
    if has_sent {
        return false;
    }
    connected_secs > timeout_secs
}

} // verus!
