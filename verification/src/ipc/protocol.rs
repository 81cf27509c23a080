//! The window manager's own IPC protocol: a command with arguments in, a
//! response out.
use vstd::prelude::*;
use crate::wm::tree::{Rect, XWindow};

verus! {

/// A workspace as `get_workspaces` reports it.
#[derive(Debug, Clone)]
pub struct WorkspaceInfo {
    pub id: usize,
    pub name: String,
    pub focused: bool,
    pub tiled_count: usize,
    pub floating_count: usize,
}

/// A window as the protocol reports it.
#[derive(Debug, Clone, Copy, PartialEq, Eq, Structural)]
pub struct WindowInfo {
    pub id: u32,
    pub workspace: usize,
    pub floating: bool,
    pub focused: bool,
}

/// The focused window as `get_focused` reports it.
#[derive(Debug, Clone, Copy, PartialEq, Eq, Structural)]
pub struct FocusedInfo {
    pub id: XWindow,
    /// Its workspace, counted from 1.
    pub workspace: usize,
    pub floating: bool,
}

/// A workspace's windows as `get_tree` reports them.
#[derive(Debug, Clone)]
pub struct WorkspaceTree {
    pub id: usize,
    pub name: String,
    pub tiled: Vec<XWindow>,
    pub floating: Vec<XWindow>,
}

/// What `get_tree` reports.
#[derive(Debug, Clone)]
pub struct TreeInfo {
    /// The focused workspace, counted from 1.
    pub focused_workspace: usize,
    pub workspaces: Vec<WorkspaceTree>,
}

/// A monitor as `get_monitors` reports it.
#[derive(Debug, Clone)]
pub struct MonitorInfo {
    pub name: String,
    pub focused: bool,
    pub primary: bool,
    pub geometry: Rect,
    /// Its workspaces, counted from 1.
    pub workspaces: Vec<usize>,
    /// The workspace it shows, counted from 1.
    pub active_workspace: usize,
}

/// The data a response carries.
#[derive(Debug, Clone)]
pub enum ResponseData {
    Workspaces(Vec<WorkspaceInfo>),
    Focused(Option<FocusedInfo>),
    Tree(TreeInfo),
    Monitors(Vec<MonitorInfo>),
}

/// The answer to a command.
#[derive(Debug, Clone)]
pub struct Response {
    pub success: bool,
    pub data: Option<ResponseData>,
    pub error: Option<String>,
}

impl Response {
    pub fn success(data: Option<ResponseData>) -> (r: Response)
        ensures
            r.success,
            r.data == data,
            r.error is None,
    {
        Response { success: true, data, error: None }
    }

    pub fn error(msg: String) -> (r: Response)
        ensures
            !r.success,
            r.data is None,
            r.error == Some(msg),
    {
        Response { success: false, data: None, error: Some(msg) }
    }
}

/// The arguments a command may carry, each absent when not given (or not
/// of the expected kind).
#[derive(Debug, Clone)]
pub struct CommandArgs {
    pub direction: Option<String>,
    /// A resize amount, in units of `1 / RATIO_SCALE`.
    pub amount: Option<i32>,
    pub number: Option<u64>,
    pub target: Option<String>,
}

} // verus!
