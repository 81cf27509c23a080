//! A physical output and the workspaces assigned to it.
use vstd::prelude::*;
use crate::wm::tree::Rect;

verus! {

#[derive(Debug)]
pub struct Monitor {
    pub name: String,
    /// The RandR output id.
    pub output: u32,
    pub geometry: Rect,
    pub primary: bool,
    /// Indices of the workspaces assigned to it.
    pub workspaces: Vec<usize>,
    /// Index of the workspace it shows.
    pub active_workspace: usize,
}

impl Monitor {
    pub fn new(name: String, output: u32, geometry: Rect) -> (m: Monitor)
        ensures
            m.name@ == name@,
            m.output == output,
            m.geometry == geometry,
            !m.primary,
            m.workspaces@.len() == 0,
            m.active_workspace == 0,
    {
        Monitor { name, output, geometry, primary: false, workspaces: Vec::new(), active_workspace: 0 }
    }
}

} // verus!
