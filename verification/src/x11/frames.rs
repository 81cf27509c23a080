//! Which frame window holds which client window. A frame is made when
//! title bars or gradient borders are on; the program around the library
//! creates and draws it, and records it here.
use vstd::prelude::*;
use std::collections::HashMap;
use crate::wm::tree::XWindow;

verus! {

broadcast use vstd::std_specs::hash::group_hash_axioms;

pub struct FrameManager {
    client_to_frame: HashMap<XWindow, XWindow>,
    frame_to_client: HashMap<XWindow, XWindow>,
}

impl FrameManager {
    /// The frame of each client that has one.
    pub closed spec fn frames(&self) -> Map<XWindow, XWindow> {
        self.client_to_frame@
    }

    /// The client of each frame.
    pub closed spec fn clients(&self) -> Map<XWindow, XWindow> {
        self.frame_to_client@
    }

    pub fn new() -> (m: FrameManager)
        ensures
            m.frames() == Map::<XWindow, XWindow>::empty(),
            m.clients() == Map::<XWindow, XWindow>::empty(),
    {
        FrameManager { client_to_frame: HashMap::new(), frame_to_client: HashMap::new() }
    }

    /// Whether `window` is a frame recorded here.
    pub fn is_frame(&self, window: XWindow) -> (b: bool)
        ensures
            b == self.clients().contains_key(window),
    {
        self.frame_to_client.contains_key(&window)
    }

    /// The client held by `frame`.
    pub fn client_for_frame(&self, frame: XWindow) -> (c: Option<XWindow>)
        ensures
            c == (if self.clients().contains_key(frame) { Some(self.clients()[frame]) } else { None }),
    {
        match self.frame_to_client.get(&frame) {
            Some(c) => Some(*c),
            None => None,
        }
    }

    /// The frame holding `client`.
    pub fn frame_for_client(&self, client: XWindow) -> (f: Option<XWindow>)
        ensures
            f == (if self.frames().contains_key(client) { Some(self.frames()[client]) } else { None }),
    {
        match self.client_to_frame.get(&client) {
            Some(f) => Some(*f),
            None => None,
        }
    }

    /// The client a window stands for: the client of a frame, else the
    /// window itself.
    pub fn client_or_self(&self, window: XWindow) -> (c: XWindow)
        ensures
            c == (if self.clients().contains_key(window) { self.clients()[window] } else { window }),
    {
        match self.frame_to_client.get(&window) {
            Some(c) => *c,
            None => window,
        }
    }

    /// Record that `frame` now holds `client`.
    pub fn track(&mut self, client: XWindow, frame: XWindow)
        ensures
            final(self).frames() == old(self).frames().insert(client, frame),
            final(self).clients() == old(self).clients().insert(frame, client),
    {
        self.client_to_frame.insert(client, frame);
        self.frame_to_client.insert(frame, client);
    }

    /// Forget the frame of `client` and return it, when it has one.
    pub fn untrack(&mut self, client: XWindow) -> (f: Option<XWindow>)
        ensures
            f == (if old(self).frames().contains_key(client) { Some(old(self).frames()[client]) } else { None }),
            final(self).frames() == old(self).frames().remove(client),
            final(self).clients() == (match f {
                Some(fr) => old(self).clients().remove(fr),
                None => old(self).clients(),
            }),
    {
        match self.client_to_frame.remove(&client) {
            Some(frame) => {
                self.frame_to_client.remove(&frame);
                Some(frame)
            },
            None => None,
        }
    }

    /// Every frame recorded, each once, in no particular order.
    pub fn all_frames(&self) -> (v: Vec<XWindow>)
        ensures
            v@.to_set() == self.clients().dom(),
            v@.no_duplicates(),
    {
        let mut v: Vec<XWindow> = Vec::new();
        for k in it: self.frame_to_client.keys()
            invariant
                v@ == it.seq().take(it.index() as int).unref(),
                it.seq().unref().to_set() == self.frame_to_client@.dom(),
                it.seq().no_duplicates(),
                v@.no_duplicates(),
                it.index() == it.seq().len() ==> v@.to_set() == self.frame_to_client@.dom(),
        {
            v.push(*k);
            assert(it.seq().take(it.index() + 1).unref() =~= it.seq().take(it.index() as int).unref().push(*k));
            assert(it.seq().take(it.seq().len() as int) =~= it.seq());
            assert forall|a: int, b: int| 0 <= a < b < v@.len() implies v@[a] != v@[b] by {
                assert(it.seq()[a] != it.seq()[b]);
            }
        }
        v
    }
}

impl Default for FrameManager {
    fn default() -> (m: FrameManager)
        ensures
            m.frames() == Map::<XWindow, XWindow>::empty(),
            m.clients() == Map::<XWindow, XWindow>::empty(),
    {
        FrameManager::new()
    }
}

} // verus!
