//! A workspace: a tiling tree and a stack of floating windows.
use vstd::prelude::*;
use crate::wm::tree::{Node, XWindow};

verus! {

/// `s` without any occurrence of `w`, in order.
pub open spec fn without(s: Seq<XWindow>, w: XWindow) -> Seq<XWindow>
    decreases s.len(),
{
    if s.len() == 0 {
        s
    } else if s.last() == w {
        without(s.drop_last(), w)
    } else {
        without(s.drop_last(), w).push(s.last())
    }
}

pub proof fn lemma_without(s: Seq<XWindow>, w: XWindow)
    ensures
        !without(s, w).contains(w),
        forall|x: XWindow| x != w ==> (without(s, w).contains(x) <==> s.contains(x)),
        s.no_duplicates() ==> without(s, w).no_duplicates(),
        !s.contains(w) ==> without(s, w) == s,
        without(s, w).len() <= s.len(),
    decreases s.len(),
{
    if s.len() > 0 {
        let p = s.drop_last();
        lemma_without(p, w);
        assert forall|x: XWindow| #[trigger] s.contains(x) <==> (p.contains(x) || x == s.last()) by {
            if s.contains(x) {
                let i = choose|i: int| 0 <= i < s.len() && s[i] == x;
                if i < s.len() - 1 {
                    assert(p[i] == x);
                }
            }
            if p.contains(x) {
                let i = choose|i: int| 0 <= i < p.len() && p[i] == x;
                assert(s[i] == x);
            }
            if x == s.last() {
                assert(s[s.len() - 1] == x);
            }
        }
        let r = without(p, w);
        assert forall|x: XWindow| #[trigger] r.push(s.last()).contains(x) <==> (r.contains(x) || x == s.last()) by {
            if r.push(s.last()).contains(x) {
                let i = choose|i: int| 0 <= i < r.len() + 1 && r.push(s.last())[i] == x;
                if i < r.len() {
                    assert(r[i] == x);
                }
            }
            if r.contains(x) {
                let i = choose|i: int| 0 <= i < r.len() && r[i] == x;
                assert(r.push(s.last())[i] == x);
            }
            if x == s.last() {
                assert(r.push(s.last())[r.len() as int] == x);
            }
        }
        if s.no_duplicates() {
            assert(p.no_duplicates());
            assert(!p.contains(s.last())) by {
                if p.contains(s.last()) {
                    let i = choose|i: int| 0 <= i < p.len() && p[i] == s.last();
                    assert(s[i] == s[s.len() - 1]);
                }
            }
        }
        if !s.contains(w) {
            assert(s.last() != w);
            assert(p.push(s.last()) =~= s);
        }
    }
}

#[derive(Debug)]
pub struct Workspace {
    pub id: usize,
    pub name: String,
    pub tree: Node,
    /// Floating windows in stacking order, bottom first.
    pub floating: Vec<XWindow>,
    pub focused: Option<XWindow>,
    pub visible: bool,
    /// The monitor this workspace was last shown on.
    pub last_monitor: Option<usize>,
}

impl Workspace {
    /// A well-formed tree and a floating stack that holds no window twice.
    pub open spec fn wf(&self) -> bool {
        &&& self.tree.wf()
        &&& self.floating@.no_duplicates()
    }

    /// Every window of the workspace: tiled in tree order, then floating
    /// from the bottom up.
    pub open spec fn window_seq(&self) -> Seq<XWindow> {
        self.tree.window_seq() + self.floating@
    }

    pub fn new(id: usize, name: String) -> (ws: Workspace)
        ensures
            ws.wf(),
            ws.id == id,
            ws.name@ == name@,
            ws.tree.empty_leaf(),
            ws.floating@.len() == 0,
            ws.focused is None,
            ws.visible == (id == 1),
            ws.last_monitor is None,
    {
        Workspace {
            id,
            name,
            tree: Node::empty(),
            floating: Vec::new(),
            focused: None,
            visible: id == 1,
            last_monitor: None,
        }
    }

    pub fn all_windows(&self) -> (v: Vec<XWindow>)
        ensures
            v@ == self.window_seq(),
    {
        let mut v = self.tree.windows();
        let mut i: usize = 0;
        let ghost t = v@;
        while i < self.floating.len()
            invariant
                i <= self.floating@.len(),
                t == self.tree.window_seq(),
                v@ == t + self.floating@.subrange(0, i as int),
            decreases self.floating@.len() - i,
        {
            v.push(self.floating[i]);
            assert(self.floating@.subrange(0, i + 1) =~= self.floating@.subrange(0, i as int).push(
                self.floating@[i as int],
            ));
            i = i + 1;
        }
        assert(self.floating@.subrange(0, self.floating@.len() as int) =~= self.floating@);
        v
    }

    /// No tiled and no floating window.
    pub fn is_empty(&self) -> (b: bool)
        ensures
            b == (self.tree.empty_leaf() && self.floating@.len() == 0),
    {
        self.tree.is_empty() && self.floating.len() == 0
    }

    pub fn has_windows(&self) -> (b: bool)
        ensures
            b == !(self.tree.empty_leaf() && self.floating@.len() == 0),
    {
        !self.is_empty()
    }

    pub fn is_floating(&self, window: XWindow) -> (b: bool)
        ensures
            b == self.floating@.contains(window),
    {
        let mut i: usize = 0;
        while i < self.floating.len()
            invariant
                i <= self.floating@.len(),
                forall|j: int| 0 <= j < i ==> self.floating@[j] != window,
            decreases self.floating@.len() - i,
        {
            if self.floating[i] == window {
                return true;
            }
            i = i + 1;
        }
        false
    }

    /// Put `window` on top of the floating stack, unless it is there already.
    pub fn add_floating(&mut self, window: XWindow)
        ensures
            final(self).floating@ == (if old(self).floating@.contains(window) {
                old(self).floating@
            } else {
                old(self).floating@.push(window)
            }),
            old(self).floating@.no_duplicates() ==> final(self).floating@.no_duplicates(),
            final(self).tree == old(self).tree,
            final(self).id == old(self).id,
            final(self).name == old(self).name,
            final(self).focused == old(self).focused,
            final(self).visible == old(self).visible,
            final(self).last_monitor == old(self).last_monitor,
    {
        if !self.is_floating(window) {
            self.floating.push(window);
            proof {
                let s = old(self).floating@;
                if s.no_duplicates() {
                    assert forall|i: int, j: int| 0 <= i < j < s.len() + 1 implies self.floating@[i]
                        != self.floating@[j] by {
                        if j == s.len() {
                            assert(self.floating@[i] == s[i]);
                        }
                    }
                }
            }
        }
    }

    /// Take `window` off the floating stack.
    pub fn remove_floating(&mut self, window: XWindow)
        ensures
            final(self).floating@ == without(old(self).floating@, window),
            final(self).tree == old(self).tree,
            final(self).id == old(self).id,
            final(self).name == old(self).name,
            final(self).focused == old(self).focused,
            final(self).visible == old(self).visible,
            final(self).last_monitor == old(self).last_monitor,
    {
        let mut kept: Vec<XWindow> = Vec::new();
        let mut i: usize = 0;
        while i < self.floating.len()
            invariant
                i <= self.floating@.len(),
                kept@ == without(self.floating@.subrange(0, i as int), window),
            decreases self.floating@.len() - i,
        {
            let ghost q = self.floating@.subrange(0, i + 1);
            assert(q.drop_last() =~= self.floating@.subrange(0, i as int));
            let w = self.floating[i];
            if w != window {
                kept.push(w);
            }
            i = i + 1;
        }
        assert(self.floating@.subrange(0, self.floating@.len() as int) =~= self.floating@);
        self.floating = kept;
    }

    /// Move `window` to the top of the floating stack if it is on it.
    pub fn raise_floating(&mut self, window: XWindow)
        ensures
            final(self).floating@ == (match old(self).floating@.index_of_first(window) {
                Some(i) => old(self).floating@.remove(i).push(window),
                None => old(self).floating@,
            }),
            final(self).tree == old(self).tree,
            final(self).focused == old(self).focused,
            final(self).name == old(self).name,
            final(self).id == old(self).id,
            final(self).visible == old(self).visible,
            final(self).last_monitor == old(self).last_monitor,
    {
        let ghost s = self.floating@;
        proof {
            s.index_of_first_ensures(window);
        }
        let mut i: usize = 0;
        while i < self.floating.len()
            invariant
                i <= s.len(),
                *self == *old(self),
                s == self.floating@,
                forall|j: int| 0 <= j < i ==> s[j] != window,
                match s.index_of_first(window) {
                    Some(k) => i <= k < s.len() && s[k] == window && forall|j: int| 0 <= j < k ==> s[j] != window,
                    None => !s.contains(window),
                },
            decreases self.floating@.len() - i,
        {
            if self.floating[i] == window {
                assert(s.contains(window)) by {
                    assert(s[i as int] == window);
                }
                assert(s.index_of_first(window) == Some(i as int));
                self.floating.remove(i);
                self.floating.push(window);
                return;
            }
            i = i + 1;
        }
    }
}

} // verus!
