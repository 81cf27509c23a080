//! Keyboard navigation within the focused workspace: focus, swap, resize
//! and equalize in a direction.
use vstd::prelude::*;
use crate::wm::actions::{adjacent_monitor_focused, moved_to_monitor, same_frame};
use crate::wm::manager::{Effect, WindowManager};
use crate::wm::tree::{spec_find_adjacent, Direction, Node, XWindow};
use crate::wm::tree_laws::{law_equalize, law_layout_fits, lemma_ratios_in_scale, law_resize, law_swap};
use crate::wm::workspace::Workspace;

verus! {

broadcast use vstd::std_specs::hash::group_hash_axioms;

/// `WindowManager::focus_direction` from `o` gives `f` and `effects`.
pub open spec fn focused_direction(o: WindowManager, f: WindowManager, direction: Direction, effects: Seq<Effect>) -> bool {
    match o.focused_window {
        Some(w) => match o.spec_adjacent(w, direction) {
            Some(t) => {
                &&& f.focused_window == Some(t)
                &&& f.workspaces@ =~= o.workspaces@.update(
                    o.focused_workspace as int,
                    Workspace { focused: Some(t), ..o.workspaces@[o.focused_workspace as int] },
                )
                &&& f.windows@ =~= o.windows@
                &&& f.monitors@ =~= o.monitors@
                &&& f.focused_workspace == o.focused_workspace
                &&& f.focused_monitor == o.focused_monitor
                &&& effects =~= seq![Effect::Focus(t, true)]
            },
            None => adjacent_monitor_focused(o, f, direction, effects),
        },
        None => adjacent_monitor_focused(o, f, direction, effects),
    }
}

/// `WindowManager::swap_direction` from `o` gives `f` and `effects`.
pub open spec fn swapped_direction(o: WindowManager, f: WindowManager, direction: Direction, effects: Seq<Effect>) -> bool {
    let fw = o.focused_workspace as int;
    match o.focused_window {
        None => f == o && effects.len() == 0,
        Some(w) => match o.spec_adjacent(w, direction) {
            Some(t) => {
                &&& f.workspaces@ =~= o.workspaces@.update(fw, Workspace {
                    tree: o.workspaces@[fw].tree.spec_swap(w, t),
                    focused: Some(w),
                    ..o.workspaces@[fw]
                })
                &&& f.focused_window == Some(w)
                &&& f.windows@ =~= o.windows@
                &&& f.monitors@ =~= o.monitors@
                &&& f.focused_workspace == o.focused_workspace
                &&& f.focused_monitor == o.focused_monitor
                &&& effects =~= seq![Effect::ApplyLayout, Effect::Focus(w, true)]
            },
            None => {
                let name = if direction == Direction::Left { "prev"@ } else { "next"@ };
                if o.monitors@.len() <= 1 || direction == Direction::Up || direction == Direction::Down {
                    f == o && effects.len() == 0
                } else {
                    moved_to_monitor(o, f, name, effects)
                }
            },
        },
    }
}

/// `WindowManager::resize_direction` from `o` gives `f` and `effects`.
pub open spec fn resized_direction(o: WindowManager, f: WindowManager, direction: Direction, delta: i32, effects: Seq<Effect>) -> bool {
    let fw = o.focused_workspace as int;
    match o.focused_window {
        None => f == o && effects.len() == 0,
        Some(w) => {
            let (t, moved) = o.workspaces@[fw].tree.spec_resize(w, direction, delta as int);
            &&& f.workspaces@ =~= o.workspaces@.update(fw, Workspace { tree: t, ..o.workspaces@[fw] })
            &&& same_frame(o, f)
            &&& f.windows@ =~= o.windows@
            &&& effects =~= (if moved { seq![Effect::ApplyLayout] } else { Seq::empty() })
        },
    }
}

/// `WindowManager::equalize` from `o` gives `f` and `effects`.
pub open spec fn equalized(o: WindowManager, f: WindowManager, effects: Seq<Effect>) -> bool {
    let fw = o.focused_workspace as int;
    &&& f.workspaces@ =~= o.workspaces@.update(fw, Workspace {
        tree: o.workspaces@[fw].tree.spec_equalize(),
        ..o.workspaces@[fw]
    })
    &&& same_frame(o, f)
    &&& f.windows@ =~= o.windows@
    &&& effects =~= seq![Effect::ApplyLayout]
}

impl WindowManager {
    /// The window beside the focused one toward `direction` in the focused
    /// workspace laid out on the focused monitor.
    pub open spec fn spec_adjacent(&self, from: XWindow, direction: Direction) -> Option<XWindow> {
        spec_find_adjacent(
            self.workspaces@[self.focused_workspace as int].tree.spec_geometries(self.spec_screen_rect()),
            from,
            direction,
        )
    }

    fn adjacent_to(&self, from: XWindow, direction: Direction) -> (r: Option<XWindow>)
        requires
            self.wf(),
        ensures
            r == self.spec_adjacent(from, direction),
    {
        let screen = self.screen_rect();
        let fw = self.focused_workspace;
        proof {
            lemma_ratios_in_scale(self.workspaces@[fw as int].tree);
            law_layout_fits(self.workspaces@[fw as int].tree, screen, None);
        }
        let geometries = self.workspaces[fw].tree.calculate_geometries(screen);
        Node::find_adjacent(geometries.as_slice(), from, direction)
    }

    /// Move the focus to the window beside the focused one toward
    /// `direction`; when there is none, or no window has the focus, to the
    /// monitor beside the focused one that way.
    pub fn focus_direction(&mut self, direction: Direction) -> (effects: Vec<Effect>)
        requires
            old(self).wf(),
        ensures
            final(self).wf(),
            focused_direction(*old(self), *final(self), direction, effects@),
    {
        match self.focused_window {
            None => self.focus_adjacent_monitor(direction),
            Some(focused) => match self.adjacent_to(focused, direction) {
                Some(target) => self.set_focus(target, true),
                None => self.focus_adjacent_monitor(direction),
            },
        }
    }

    /// Exchange the focused window with the one beside it toward
    /// `direction`, keeping the focus on it; when there is none, move it to
    /// the previous monitor (left) or the next one (right).
    pub fn swap_direction(&mut self, direction: Direction) -> (effects: Vec<Effect>)
        requires
            old(self).wf(),
        ensures
            final(self).wf(),
            swapped_direction(*old(self), *final(self), direction, effects@),
    {
        let focused = match self.focused_window {
            Some(w) => w,
            None => {
                return Vec::new();
            },
        };
        match self.adjacent_to(focused, direction) {
            Some(target) => {
                let fw = self.focused_workspace;
                let ghost pre = self.workspaces@;
                proof {
                    law_swap(pre[fw as int].tree, focused, target, self.spec_screen_rect());
                }
                self.workspaces[fw].tree.swap(focused, target);
                proof {
                    assert forall|j: int| 0 <= j < self.workspaces@.len() implies (#[trigger] self.workspaces@[j]).wf() by {
                        if j != fw {
                            assert(self.workspaces@[j] == pre[j]);
                        }
                    }
                }
                let mut effects: Vec<Effect> = Vec::new();
                effects.push(Effect::ApplyLayout);
                let mut e = self.set_focus(focused, true);
                effects.append(&mut e);
                proof {
                    assert(self.workspaces@ =~= pre.update(fw as int, Workspace {
                        tree: pre[fw as int].tree.spec_swap(focused, target),
                        focused: Some(focused),
                        ..pre[fw as int]
                    }));
                }
                effects
            },
            None => {
                if self.monitors.len() > 1 {
                    match direction {
                        Direction::Left => self.move_to_monitor("prev"),
                        Direction::Right => self.move_to_monitor("next"),
                        _ => Vec::new(),
                    }
                } else {
                    Vec::new()
                }
            },
        }
    }

    /// Move the split nearest the focused window toward `direction` by
    /// `delta` (in units of `1 / RATIO_SCALE`, see `Node::resize`), laying
    /// out again when one moved.
    pub fn resize_direction(&mut self, direction: Direction, delta: i32) -> (effects: Vec<Effect>)
        requires
            old(self).wf(),
        ensures
            final(self).wf(),
            resized_direction(*old(self), *final(self), direction, delta, effects@),
    {
        let focused = match self.focused_window {
            Some(w) => w,
            None => {
                return Vec::new();
            },
        };
        let fw = self.focused_workspace;
        let ghost pre = self.workspaces@;
        proof {
            law_resize(pre[fw as int].tree, focused, direction, delta as int);
        }
        let moved = self.workspaces[fw].tree.resize(focused, direction, delta);
        proof {
            assert forall|j: int| 0 <= j < self.workspaces@.len() implies (#[trigger] self.workspaces@[j]).wf() by {
                if j != fw {
                    assert(self.workspaces@[j] == pre[j]);
                }
            }
            assert(self.workspaces@ =~= pre.update(fw as int, Workspace {
                tree: pre[fw as int].tree.spec_resize(focused, direction, delta as int).0,
                ..pre[fw as int]
            }));
        }
        let mut effects: Vec<Effect> = Vec::new();
        if moved {
            effects.push(Effect::ApplyLayout);
        }
        effects
    }

    /// Set every split of the focused workspace to one half and lay out again.
    pub fn equalize(&mut self) -> (effects: Vec<Effect>)
        requires
            old(self).wf(),
        ensures
            final(self).wf(),
            equalized(*old(self), *final(self), effects@),
    {
        let fw = self.focused_workspace;
        let ghost pre = self.workspaces@;
        proof {
            law_equalize(pre[fw as int].tree);
        }
        self.workspaces[fw].tree.equalize();
        proof {
            assert forall|j: int| 0 <= j < self.workspaces@.len() implies (#[trigger] self.workspaces@[j]).wf() by {
                if j != fw {
                    assert(self.workspaces@[j] == pre[j]);
                }
            }
            assert(self.workspaces@ =~= pre.update(fw as int, Workspace {
                tree: pre[fw as int].tree.spec_equalize(),
                ..pre[fw as int]
            }));
        }
        let mut effects: Vec<Effect> = Vec::new();
        effects.push(Effect::ApplyLayout);
        effects
    }
}

} // verus!
