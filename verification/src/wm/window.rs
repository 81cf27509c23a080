//! What the window manager records of a managed window.
use vstd::prelude::*;
use crate::wm::tree::{Rect, XWindow};

verus! {

#[derive(Debug, Clone)]
pub struct Window {
    pub id: XWindow,
    /// Position and size while floating.
    pub floating_geometry: Rect,
    pub mapped: bool,
    pub focused: bool,
    pub floating: bool,
    pub fullscreen: bool,
    /// Geometry before going fullscreen, to restore it.
    pub pre_fullscreen_geometry: Option<Rect>,
    /// Whether it floated before going fullscreen.
    pub pre_fullscreen_floating: bool,
    pub urgent: bool,
    /// Index of its workspace.
    pub workspace: usize,
    /// The frame it is reparented into, when title bars are on.
    pub frame: Option<XWindow>,
    pub title: String,
    /// Unmap notifications still to be ignored, for unmaps the window
    /// manager made itself.
    pub ignore_unmap_count: u32,
}

impl Window {
    pub fn new(id: XWindow, workspace: usize) -> (w: Window)
        ensures
            w.id == id,
            w.workspace == workspace,
            w.floating_geometry == (Rect { x: 0, y: 0, width: 640, height: 480 }),
            !w.mapped,
            !w.focused,
            !w.floating,
            !w.fullscreen,
            w.pre_fullscreen_geometry is None,
            !w.pre_fullscreen_floating,
            !w.urgent,
            w.frame is None,
            w.title@.len() == 0,
            w.ignore_unmap_count == 0,
    {
        Window {
            id,
            floating_geometry: Rect::new(0, 0, 640, 480),
            mapped: false,
            focused: false,
            floating: false,
            fullscreen: false,
            pre_fullscreen_geometry: None,
            pre_fullscreen_floating: false,
            urgent: false,
            workspace,
            frame: None,
            title: String::new(),
            ignore_unmap_count: 0,
        }
    }

    /// The window to configure: the frame when there is one.
    pub fn outer_window(&self) -> (w: XWindow)
        ensures
            w == (match self.frame {
                Some(f) => f,
                None => self.id,
            }),
    {
        match self.frame {
            Some(f) => f,
            None => self.id,
        }
    }
}

} // verus!
