use vstd::prelude::*;

verus! {

/// An X11 window id.
pub type XWindow = u32;

/// Split ratios are held in fixed point: `RATIO_SCALE` stands for 1.0.
pub const RATIO_SCALE: u32 = 10000;
/// The ratio of an even split (0.5).
pub const RATIO_HALF: u32 = 5000;
/// The smallest ratio a resize can leave (0.1).
pub const RATIO_MIN: u32 = 1000;
/// The largest ratio a resize can leave (0.9).
pub const RATIO_MAX: u32 = 9000;

#[derive(Debug, Clone, Copy, PartialEq, Eq, Structural)]
pub enum SplitDirection {
    Horizontal,
    Vertical,
}

#[derive(Debug, Clone, Copy, PartialEq, Eq, Structural)]
pub enum Direction {
    Left,
    Right,
    Up,
    Down,
}

#[derive(Debug, Clone, Copy)]
pub struct Rect {
    pub x: i16,
    pub y: i16,
    pub width: u16,
    pub height: u16,
}

/// The length of the first part when a side of `len` pixels is split at
/// `ratio`: the product rounded down, saturating at `u16::MAX`.
pub open spec fn split_len(len: u16, ratio: u32) -> u16 {
    let p = len as int * ratio as int / RATIO_SCALE as int;
    if p > 65535 { 65535u16 } else { p as u16 }
}

/// A `u16` read as the `i16` with the same bits.
pub open spec fn wrap_i16(v: u16) -> int {
    if v < 32768 { v as int } else { v as int - 65536 }
}

pub open spec fn sat_sub_u16(a: u16, b: u16) -> u16 {
    if a >= b { (a - b) as u16 } else { 0u16 }
}

/// Splitting `r` does not overflow the coordinate of the second part.
pub open spec fn split_ok(r: Rect, direction: SplitDirection, ratio: u32) -> bool {
    match direction {
        SplitDirection::Horizontal => i16::MIN <= r.y + wrap_i16(split_len(r.height, ratio))
            <= i16::MAX,
        SplitDirection::Vertical => i16::MIN <= r.x + wrap_i16(split_len(r.width, ratio))
            <= i16::MAX,
    }
}

/// The two parts of `r` split at `ratio`: top/bottom for a horizontal split,
/// left/right for a vertical one.
pub open spec fn spec_split(r: Rect, direction: SplitDirection, ratio: u32) -> (Rect, Rect) {
    match direction {
        SplitDirection::Horizontal => {
            let s = split_len(r.height, ratio);
            (
                Rect { x: r.x, y: r.y, width: r.width, height: s },
                Rect {
                    x: r.x,
                    y: (r.y + wrap_i16(s)) as i16,
                    width: r.width,
                    height: sat_sub_u16(r.height, s),
                },
            )
        },
        SplitDirection::Vertical => {
            let s = split_len(r.width, ratio);
            (
                Rect { x: r.x, y: r.y, width: s, height: r.height },
                Rect {
                    x: (r.x + wrap_i16(s)) as i16,
                    y: r.y,
                    width: sat_sub_u16(r.width, s),
                    height: r.height,
                },
            )
        },
    }
}

/// A rectangle whose far edges stay inside the `i16` coordinate space.
pub open spec fn rect_fits(r: Rect) -> bool {
    &&& r.width <= 32767
    &&& r.height <= 32767
    &&& r.x + r.width <= 32767
    &&& r.y + r.height <= 32767
}

pub(crate) fn u16_as_i16(v: u16) -> (r: i16)
    ensures
        r == wrap_i16(v),
{
    if v < 32768 {
        v as i16
    } else {
        ((v - 32768) as i16) + i16::MIN
    }
}

/// The first part's length of a split side; see `split_len`.
fn split_length(len: u16, ratio: u32) -> (s: u16)
    ensures
        s == split_len(len, ratio),
{
    let l = len as u64;
    let r = ratio as u64;
    assert(l * r <= 65535 * 4294967295) by (nonlinear_arith)
        requires
            l <= 65535,
            r <= 4294967295,
    ;
    let p: u64 = l * r / (RATIO_SCALE as u64);
    if p > 65535 {
        65535
    } else {
        p as u16
    }
}

impl Rect {
    pub fn new(x: i16, y: i16, width: u16, height: u16) -> (r: Rect)
        ensures
            r == (Rect { x, y, width, height }),
    {
        Rect { x, y, width, height }
    }

    /// Split into two parts at `ratio` (in units of `1 / RATIO_SCALE`).
    pub fn split(&self, direction: SplitDirection, ratio: u32) -> (res: (Rect, Rect))
        requires
            split_ok(*self, direction, ratio),
        ensures
            res == spec_split(*self, direction, ratio),
    {
        match direction {
            SplitDirection::Horizontal => {
                let s = split_length(self.height, ratio);
                let sw = u16_as_i16(s);
                let rest: u16 = if self.height >= s { self.height - s } else { 0 };
                (
                    Rect::new(self.x, self.y, self.width, s),
                    Rect::new(self.x, self.y + sw, self.width, rest),
                )
            },
            SplitDirection::Vertical => {
                let s = split_length(self.width, ratio);
                let sw = u16_as_i16(s);
                let rest: u16 = if self.width >= s { self.width - s } else { 0 };
                (
                    Rect::new(self.x, self.y, s, self.height),
                    Rect::new(self.x + sw, self.y, rest, self.height),
                )
            },
        }
    }
}


/// The window sequence `s` with `w` placed right after the first `t`.
pub open spec fn insert_after_first(s: Seq<XWindow>, t: XWindow, w: XWindow) -> Seq<XWindow>
    decreases s.len(),
{
    if s.len() == 0 {
        s
    } else if s[0] == t {
        seq![t, w] + s.drop_first()
    } else {
        seq![s[0]] + insert_after_first(s.drop_first(), t, w)
    }
}

/// Where an insertion puts `w` in the window order: right after the target,
/// or at the end when there is no target or the target is absent.
pub open spec fn insert_into(s: Seq<XWindow>, target: Option<XWindow>, w: XWindow) -> Seq<
    XWindow,
> {
    match target {
        Some(t) => if s.contains(t) {
            insert_after_first(s, t, w)
        } else {
            s.push(w)
        },
        None => s.push(w),
    }
}

/// The window sequence `s` without its first `w`.
pub open spec fn remove_first(s: Seq<XWindow>, w: XWindow) -> Seq<XWindow>
    decreases s.len(),
{
    if s.len() == 0 {
        s
    } else if s[0] == w {
        s.drop_first()
    } else {
        seq![s[0]] + remove_first(s.drop_first(), w)
    }
}

/// `x` with `a` and `b` exchanged.
pub open spec fn swap_id(x: XWindow, a: XWindow, b: XWindow) -> XWindow {
    if x == a {
        b
    } else if x == b {
        a
    } else {
        x
    }
}

pub open spec fn spec_smart_split(rect: Rect) -> SplitDirection {
    if rect.width > rect.height {
        SplitDirection::Vertical
    } else {
        SplitDirection::Horizontal
    }
}

/// A split in this orientation moves the border a resize in `direction` moves.
pub open spec fn split_matches(split: SplitDirection, direction: Direction) -> bool {
    match split {
        SplitDirection::Vertical => direction == Direction::Left || direction == Direction::Right,
        SplitDirection::Horizontal => direction == Direction::Up || direction == Direction::Down,
    }
}

/// A ratio moved by `adjustment` and kept within `[RATIO_MIN, RATIO_MAX]`.
pub open spec fn clamp_ratio(v: int) -> u32 {
    if v < RATIO_MIN {
        RATIO_MIN
    } else if v > RATIO_MAX {
        RATIO_MAX
    } else {
        v as u32
    }
}

#[derive(Debug)]
pub enum Node {
    Internal { split: SplitDirection, ratio: u32, left: Box<Node>, right: Box<Node> },
    Leaf { window: Option<XWindow> },
}

impl Node {
    /// The windows of the tree, leaves read left to right.
    pub open spec fn window_seq(self) -> Seq<XWindow>
        decreases self,
    {
        match self {
            Node::Leaf { window } => match window {
                Some(w) => seq![w],
                None => Seq::empty(),
            },
            Node::Internal { left, right, .. } => left.window_seq() + right.window_seq(),
        }
    }

    pub open spec fn empty_leaf(self) -> bool {
        self matches Node::Leaf { window: None }
    }

    /// Every leaf holds a window.
    pub open spec fn no_empty_leaf(self) -> bool
        decreases self,
    {
        match self {
            Node::Leaf { window } => window is Some,
            Node::Internal { left, right, .. } => left.no_empty_leaf() && right.no_empty_leaf(),
        }
    }

    /// Every split ratio lies within `[RATIO_MIN, RATIO_MAX]`.
    /// Every split ratio is a fraction of the whole: at most `RATIO_SCALE`.
    pub open spec fn ratios_in_scale(self) -> bool
        decreases self,
    {
        match self {
            Node::Leaf { .. } => true,
            Node::Internal { ratio, left, right, .. } => ratio <= RATIO_SCALE
                && left.ratios_in_scale() && right.ratios_in_scale(),
        }
    }

    pub open spec fn ratios_ok(self) -> bool
        decreases self,
    {
        match self {
            Node::Leaf { .. } => true,
            Node::Internal { ratio, left, right, .. } => RATIO_MIN <= ratio <= RATIO_MAX
                && left.ratios_ok() && right.ratios_ok(),
        }
    }

    /// A well-formed tree: either the empty tree, or a tree whose every
    /// leaf holds a window; its ratios are those a resize can leave.
    pub open spec fn wf(self) -> bool {
        &&& (self.empty_leaf() || self.no_empty_leaf())
        &&& self.ratios_ok()
    }

    /// Inserting with `rect` overflows no coordinate on its way down.
    pub open spec fn insert_ok(self, target: Option<XWindow>, rect: Rect) -> bool
        decreases self,
    {
        match self {
            Node::Leaf { .. } => true,
            Node::Internal { split, ratio, left, right } => {
                let (lr, rr) = spec_split(rect, split, ratio);
                &&& split_ok(rect, split, ratio)
                &&& match target {
                    Some(t) => if left.window_seq().contains(t) {
                        left.insert_ok(target, lr)
                    } else if right.window_seq().contains(t) {
                        right.insert_ok(target, rr)
                    } else {
                        right.insert_ok(None, rr)
                    },
                    None => right.insert_ok(None, rr),
                }
            },
        }
    }

    /// The tree after inserting `new_window` next to `target`, the split
    /// chosen from the container rectangle reached.
    pub open spec fn spec_insert(self, new_window: XWindow, target: Option<XWindow>, rect: Rect) -> Node
        decreases self,
    {
        match self {
            Node::Leaf { window: None } => Node::Leaf { window: Some(new_window) },
            Node::Leaf { window: Some(e) } => Node::Internal {
                split: spec_smart_split(rect),
                ratio: RATIO_HALF,
                left: Box::new(Node::Leaf { window: Some(e) }),
                right: Box::new(Node::Leaf { window: Some(new_window) }),
            },
            Node::Internal { split, ratio, left, right } => {
                let (lr, rr) = spec_split(rect, split, ratio);
                match target {
                    Some(t) => if left.window_seq().contains(t) {
                        Node::Internal {
                            split,
                            ratio,
                            left: Box::new(left.spec_insert(new_window, target, lr)),
                            right,
                        }
                    } else if right.window_seq().contains(t) {
                        Node::Internal {
                            split,
                            ratio,
                            left,
                            right: Box::new(right.spec_insert(new_window, target, rr)),
                        }
                    } else {
                        Node::Internal {
                            split,
                            ratio,
                            left,
                            right: Box::new(right.spec_insert(new_window, None, rr)),
                        }
                    },
                    None => Node::Internal {
                        split,
                        ratio,
                        left,
                        right: Box::new(right.spec_insert(new_window, None, rr)),
                    },
                }
            },
        }
    }

    /// The tree after removing the first leaf holding `w` (a parent left
    /// with one child is replaced by that child), and whether it was found.
    pub open spec fn spec_remove(self, w: XWindow) -> (Node, bool)
        decreases self,
    {
        match self {
            Node::Leaf { window } => if window == Some(w) {
                (Node::Leaf { window: None }, true)
            } else {
                (self, false)
            },
            Node::Internal { split, ratio, left, right } => {
                let (l2, fl) = left.spec_remove(w);
                if fl {
                    if l2.empty_leaf() {
                        (*right, true)
                    } else {
                        (Node::Internal { split, ratio, left: Box::new(l2), right }, true)
                    }
                } else {
                    let (r2, fr) = right.spec_remove(w);
                    if fr {
                        if r2.empty_leaf() {
                            (*left, true)
                        } else {
                            (Node::Internal { split, ratio, left, right: Box::new(r2) }, true)
                        }
                    } else {
                        (self, false)
                    }
                }
            },
        }
    }

    /// The tree with every split ratio set to one half.
    pub open spec fn spec_equalize(self) -> Node
        decreases self,
    {
        match self {
            Node::Leaf { .. } => self,
            Node::Internal { split, left, right, .. } => Node::Internal {
                split,
                ratio: RATIO_HALF,
                left: Box::new(left.spec_equalize()),
                right: Box::new(right.spec_equalize()),
            },
        }
    }

    /// The tree with the windows `a` and `b` exchanged leaf by leaf.
    pub open spec fn spec_swap(self, a: XWindow, b: XWindow) -> Node
        decreases self,
    {
        match self {
            Node::Leaf { window } => match window {
                Some(w) => Node::Leaf { window: Some(swap_id(w, a, b)) },
                None => self,
            },
            Node::Internal { split, ratio, left, right } => Node::Internal {
                split,
                ratio,
                left: Box::new(left.spec_swap(a, b)),
                right: Box::new(right.spec_swap(a, b)),
            },
        }
    }

    /// The tree after moving the nearest enclosing split of `window` whose
    /// orientation matches `direction`, and whether such a split was found.
    /// The window's side grows toward `direction` by `delta`, within
    /// `[RATIO_MIN, RATIO_MAX]`.
    pub open spec fn spec_resize(self, window: XWindow, direction: Direction, delta: int) -> (Node, bool)
        decreases self,
    {
        match self {
            Node::Leaf { .. } => (self, false),
            Node::Internal { split, ratio, left, right } => {
                let in_left = left.window_seq().contains(window);
                let in_right = right.window_seq().contains(window);
                let grow = (direction == Direction::Right || direction == Direction::Down);
                let adjustment = if grow == in_left { delta } else { -delta };
                let here = (Node::Internal { split, ratio: clamp_ratio(ratio + adjustment), left, right }, true);
                if in_left {
                    let (l2, r) = left.spec_resize(window, direction, delta);
                    if r {
                        (Node::Internal { split, ratio, left: Box::new(l2), right }, true)
                    } else if split_matches(split, direction) {
                        here
                    } else {
                        (self, false)
                    }
                } else if in_right {
                    let (r2, r) = right.spec_resize(window, direction, delta);
                    if r {
                        (Node::Internal { split, ratio, left, right: Box::new(r2) }, true)
                    } else if split_matches(split, direction) {
                        here
                    } else {
                        (self, false)
                    }
                } else {
                    (self, false)
                }
            },
        }
    }

    /// The ratio of the nearest split around `window` whose orientation
    /// matches `direction` (the split a resize in that direction moves).
    pub open spec fn spec_split_ratio(self, window: XWindow, direction: Direction) -> Option<u32>
        decreases self,
    {
        match self {
            Node::Leaf { .. } => None,
            Node::Internal { split, ratio, left, right } => {
                let in_left = left.window_seq().contains(window);
                let in_right = right.window_seq().contains(window);
                let inner = if in_left {
                    left.spec_split_ratio(window, direction)
                } else if in_right {
                    right.spec_split_ratio(window, direction)
                } else {
                    None
                };
                if inner is Some {
                    inner
                } else if split_matches(split, direction) && (in_left || in_right) {
                    Some(ratio)
                } else {
                    None
                }
            },
        }
    }

    /// The tree with that split (see `spec_split_ratio`) set to `value`,
    /// and whether there was one.
    pub open spec fn spec_set_split_ratio(self, window: XWindow, direction: Direction, value: u32) -> (Node, bool)
        decreases self,
    {
        match self {
            Node::Leaf { .. } => (self, false),
            Node::Internal { split, ratio, left, right } => {
                let in_left = left.window_seq().contains(window);
                let in_right = right.window_seq().contains(window);
                let here = (Node::Internal { split, ratio: value, left, right }, true);
                if in_left {
                    let (l2, r) = left.spec_set_split_ratio(window, direction, value);
                    if r {
                        (Node::Internal { split, ratio, left: Box::new(l2), right }, true)
                    } else if split_matches(split, direction) {
                        here
                    } else {
                        (self, false)
                    }
                } else if in_right {
                    let (r2, r) = right.spec_set_split_ratio(window, direction, value);
                    if r {
                        (Node::Internal { split, ratio, left, right: Box::new(r2) }, true)
                    } else if split_matches(split, direction) {
                        here
                    } else {
                        (self, false)
                    }
                } else {
                    (self, false)
                }
            },
        }
    }

    /// Laying the tree out in `rect` overflows no coordinate.
    pub open spec fn layout_ok(self, rect: Rect) -> bool
        decreases self,
    {
        match self {
            Node::Leaf { .. } => true,
            Node::Internal { split, ratio, left, right } => {
                let (lr, rr) = spec_split(rect, split, ratio);
                split_ok(rect, split, ratio) && left.layout_ok(lr) && right.layout_ok(rr)
            },
        }
    }

    /// The rectangle of every window when the tree is laid out in `rect`.
    pub open spec fn spec_geometries(self, rect: Rect) -> Seq<(XWindow, Rect)>
        decreases self,
    {
        match self {
            Node::Leaf { window } => match window {
                Some(w) => seq![(w, rect)],
                None => Seq::empty(),
            },
            Node::Internal { split, ratio, left, right } => {
                let (lr, rr) = spec_split(rect, split, ratio);
                left.spec_geometries(lr) + right.spec_geometries(rr)
            },
        }
    }
}


impl Default for Node {
    fn default() -> (n: Node)
        ensures
            n.empty_leaf(),
    {
        Node::empty()
    }
}

impl Node {
    pub fn empty() -> (n: Node)
        ensures
            n == (Node::Leaf { window: None }),
    {
        Node::Leaf { window: None }
    }

    pub fn with_window(window: XWindow) -> (n: Node)
        ensures
            n == (Node::Leaf { window: Some(window) }),
    {
        Node::Leaf { window: Some(window) }
    }

    pub fn is_empty(&self) -> (b: bool)
        ensures
            b == self.empty_leaf(),
    {
        match self {
            Node::Leaf { window: None } => true,
            _ => false,
        }
    }

    pub fn window_count(&self) -> (n: usize)
        requires
            self.window_seq().len() <= usize::MAX,
        ensures
            n == self.window_seq().len(),
        decreases self,
    {
        match self {
            Node::Leaf { window: Some(_) } => 1,
            Node::Leaf { window: None } => 0,
            Node::Internal { left, right, .. } => {
                let l = left.window_count();
                let r = right.window_count();
                l + r
            },
        }
    }

    pub fn windows(&self) -> (v: Vec<XWindow>)
        ensures
            v@ == self.window_seq(),
        decreases self,
    {
        match self {
            Node::Leaf { window: Some(w) } => vec![*w],
            Node::Leaf { window: None } => Vec::new(),
            Node::Internal { left, right, .. } => {
                let mut v = left.windows();
                let mut r = right.windows();
                v.append(&mut r);
                v
            },
        }
    }

    pub fn contains(&self, window: XWindow) -> (b: bool)
        ensures
            b == self.window_seq().contains(window),
        decreases self,
    {
        match self {
            Node::Leaf { window: Some(w) } => {
                proof {
                    if *w == window {
                        assert(self.window_seq()[0] == window);
                    }
                }
                *w == window
            },
            Node::Leaf { window: None } => false,
            Node::Internal { left, right, .. } => {
                proof {
                    broadcast use vstd::seq_lib::lemma_seq_concat_contains_all_elements;
                }
                let l = left.contains(window);
                let r = right.contains(window);
                proof {
                    lemma_concat_contains(left.window_seq(), right.window_seq(), window);
                }
                l || r
            },
        }
    }

    /// Wider than tall: split side by side; otherwise stack.
    pub fn smart_split_direction(rect: &Rect) -> (d: SplitDirection)
        ensures
            d == spec_smart_split(*rect),
    {
        if rect.width > rect.height {
            SplitDirection::Vertical
        } else {
            SplitDirection::Horizontal
        }
    }

    /// The first window of the tree, its leftmost occupied leaf.
    pub fn first_window(&self) -> (w: Option<XWindow>)
        ensures
            w == (if self.window_seq().len() > 0 { Some(self.window_seq()[0]) } else { None }),
        decreases self,
    {
        match self {
            Node::Leaf { window } => *window,
            Node::Internal { left, right, .. } => {
                match left.first_window() {
                    Some(w) => Some(w),
                    None => right.first_window(),
                }
            },
        }
    }
}


impl Node {
    fn insert_owned(self, new_window: XWindow, target: Option<XWindow>, rect: Rect) -> (n: Node)
        requires
            self.insert_ok(target, rect),
        ensures
            n == self.spec_insert(new_window, target, rect),
        decreases self,
    {
        match self {
            Node::Leaf { window: None } => Node::with_window(new_window),
            Node::Leaf { window: Some(existing) } => {
                let direction = Node::smart_split_direction(&rect);
                Node::Internal {
                    split: direction,
                    ratio: RATIO_HALF,
                    left: Box::new(Node::with_window(existing)),
                    right: Box::new(Node::with_window(new_window)),
                }
            },
            Node::Internal { split, ratio, left, right } => {
                let (left_rect, right_rect) = rect.split(split, ratio);
                match target {
                    Some(t) => {
                        if left.contains(t) {
                            let l = (*left).insert_owned(new_window, target, left_rect);
                            Node::Internal { split, ratio, left: Box::new(l), right }
                        } else if right.contains(t) {
                            let r = (*right).insert_owned(new_window, target, right_rect);
                            Node::Internal { split, ratio, left, right: Box::new(r) }
                        } else {
                            let r = (*right).insert_owned(new_window, None, right_rect);
                            Node::Internal { split, ratio, left, right: Box::new(r) }
                        }
                    },
                    None => {
                        let r = (*right).insert_owned(new_window, None, right_rect);
                        Node::Internal { split, ratio, left, right: Box::new(r) }
                    },
                }
            },
        }
    }

    /// Insert `new_window` next to `target` (or at the far right when there
    /// is no target or it is absent), using `rect` as the space the tree
    /// fills to choose the orientation of the new split.
    pub fn insert_with_rect(&mut self, new_window: XWindow, target: Option<XWindow>, rect: Rect)
        requires
            old(self).insert_ok(target, rect),
        ensures
            *final(self) == old(self).spec_insert(new_window, target, rect),
    {
        let mut t = Node::empty();
        std::mem::swap(&mut t, self);
        *self = t.insert_owned(new_window, target, rect);
    }

    /// Insert with the default container of 1920 by 1080 pixels.
    pub fn insert(&mut self, new_window: XWindow, target: Option<XWindow>)
        requires
            old(self).insert_ok(target, default_container()),
        ensures
            *final(self) == old(self).spec_insert(new_window, target, default_container()),
    {
        self.insert_with_rect(new_window, target, Rect::new(0, 0, 1920, 1080));
    }

    fn remove_owned(self, window: XWindow) -> (res: (Node, bool))
        ensures
            res == self.spec_remove(window),
        decreases self,
    {
        match self {
            Node::Leaf { window: w } => {
                match w {
                    Some(x) => {
                        if x == window {
                            (Node::empty(), true)
                        } else {
                            (Node::Leaf { window: w }, false)
                        }
                    },
                    None => (Node::Leaf { window: w }, false),
                }
            },
            Node::Internal { split, ratio, left, right } => {
                proof {
                    lemma_remove_absent(*left, window);
                    lemma_remove_absent(*right, window);
                }
                let (l2, found_left) = (*left).remove_owned(window);
                if found_left {
                    if l2.is_empty() {
                        (*right, true)
                    } else {
                        (Node::Internal { split, ratio, left: Box::new(l2), right }, true)
                    }
                } else {
                    let (r2, found_right) = (*right).remove_owned(window);
                    if found_right {
                        if r2.is_empty() {
                            (l2, true)
                        } else {
                            (Node::Internal { split, ratio, left: Box::new(l2), right: Box::new(r2) }, true)
                        }
                    } else {
                        (Node::Internal { split, ratio, left: Box::new(l2), right: Box::new(r2) }, false)
                    }
                }
            },
        }
    }

    /// Remove the first leaf holding `window`; a parent left with a single
    /// child is replaced by it. Returns whether the window was found.
    pub fn remove(&mut self, window: XWindow) -> (found: bool)
        ensures
            (*final(self), found) == old(self).spec_remove(window),
    {
        let mut t = Node::empty();
        std::mem::swap(&mut t, self);
        let (n, found) = t.remove_owned(window);
        *self = n;
        found
    }

    /// The rectangle of every window when the tree fills `rect`.
    pub fn calculate_geometries(&self, rect: Rect) -> (g: Vec<(XWindow, Rect)>)
        requires
            self.layout_ok(rect),
        ensures
            g@ == self.spec_geometries(rect),
        decreases self,
    {
        match self {
            Node::Leaf { window: Some(w) } => vec![(*w, rect)],
            Node::Leaf { window: None } => Vec::new(),
            Node::Internal { split, ratio, left, right } => {
                let (left_rect, right_rect) = rect.split(*split, *ratio);
                let mut g = left.calculate_geometries(left_rect);
                let mut r = right.calculate_geometries(right_rect);
                g.append(&mut r);
                g
            },
        }
    }

    fn equalize_owned(self) -> (n: Node)
        ensures
            n == self.spec_equalize(),
        decreases self,
    {
        match self {
            Node::Leaf { window } => Node::Leaf { window },
            Node::Internal { split, left, right, .. } => {
                let l = (*left).equalize_owned();
                let r = (*right).equalize_owned();
                Node::Internal { split, ratio: RATIO_HALF, left: Box::new(l), right: Box::new(r) }
            },
        }
    }

    /// Set every split ratio to one half.
    pub fn equalize(&mut self)
        ensures
            *final(self) == old(self).spec_equalize(),
    {
        let mut t = Node::empty();
        std::mem::swap(&mut t, self);
        *self = t.equalize_owned();
    }

    fn resize_owned(self, window: XWindow, direction: Direction, delta: i32) -> (res: (Node, bool))
        ensures
            res == self.spec_resize(window, direction, delta as int),
        decreases self,
    {
        match self {
            Node::Leaf { window: w } => (Node::Leaf { window: w }, false),
            Node::Internal { split, ratio, left, right } => {
                let dominated = Node::matches_direction(split, direction);
                let in_left = left.contains(window);
                let in_right = right.contains(window);
                let grow = match direction {
                    Direction::Right | Direction::Down => true,
                    _ => false,
                };
                let d = delta as i64;
                let adjustment: i64 = if grow == in_left { d } else { -d };
                let moved: i64 = ratio as i64 + adjustment;
                let new_ratio: u32 = if moved < RATIO_MIN as i64 {
                    RATIO_MIN
                } else if moved > RATIO_MAX as i64 {
                    RATIO_MAX
                } else {
                    moved as u32
                };
                if in_left {
                    let ghost old_left = *left;
                    let (l2, r) = (*left).resize_owned(window, direction, delta);
                    if r {
                        (Node::Internal { split, ratio, left: Box::new(l2), right }, true)
                    } else {
                        assert(l2 == old_left);
                        if dominated {
                            (Node::Internal { split, ratio: new_ratio, left: Box::new(l2), right }, true)
                        } else {
                            (Node::Internal { split, ratio, left: Box::new(l2), right }, false)
                        }
                    }
                } else if in_right {
                    let ghost old_right = *right;
                    let (r2, r) = (*right).resize_owned(window, direction, delta);
                    if r {
                        (Node::Internal { split, ratio, left, right: Box::new(r2) }, true)
                    } else {
                        assert(r2 == old_right);
                        if dominated {
                            (Node::Internal { split, ratio: new_ratio, left, right: Box::new(r2) }, true)
                        } else {
                            (Node::Internal { split, ratio, left, right: Box::new(r2) }, false)
                        }
                    }
                } else {
                    (Node::Internal { split, ratio, left, right }, false)
                }
            },
        }
    }

    /// Move the nearest split around `window` whose orientation matches
    /// `direction` by `delta` (in units of `1 / RATIO_SCALE`), growing the
    /// window's side toward `direction`; the ratio stays within
    /// `[RATIO_MIN, RATIO_MAX]`. Returns whether a split was moved.
    pub fn resize(&mut self, window: XWindow, direction: Direction, delta: i32) -> (moved: bool)
        ensures
            (*final(self), moved) == old(self).spec_resize(window, direction, delta as int),
    {
        let mut t = Node::empty();
        std::mem::swap(&mut t, self);
        let (n, moved) = t.resize_owned(window, direction, delta);
        *self = n;
        moved
    }

    fn matches_direction(split: SplitDirection, direction: Direction) -> (b: bool)
        ensures
            b == split_matches(split, direction),
    {
        match split {
            SplitDirection::Vertical => match direction {
                Direction::Left | Direction::Right => true,
                _ => false,
            },
            SplitDirection::Horizontal => match direction {
                Direction::Up | Direction::Down => true,
                _ => false,
            },
        }
    }

    /// The ratio of the split a resize of `window` toward `direction`
    /// would move (see `spec_split_ratio`).
    pub fn get_split_ratio(&self, window: XWindow, direction: Direction) -> (r: Option<u32>)
        ensures
            r == self.spec_split_ratio(window, direction),
        decreases self,
    {
        match self {
            Node::Leaf { .. } => None,
            Node::Internal { split, ratio, left, right } => {
                let in_left = left.contains(window);
                let in_right = right.contains(window);
                let inner = if in_left {
                    left.get_split_ratio(window, direction)
                } else if in_right {
                    right.get_split_ratio(window, direction)
                } else {
                    None
                };
                if inner.is_some() {
                    inner
                } else if Node::matches_direction(*split, direction) && (in_left || in_right) {
                    Some(*ratio)
                } else {
                    None
                }
            },
        }
    }

    fn set_split_ratio_owned(self, window: XWindow, direction: Direction, value: u32) -> (res: (Node, bool))
        ensures
            res == self.spec_set_split_ratio(window, direction, value),
        decreases self,
    {
        match self {
            Node::Leaf { window: w } => (Node::Leaf { window: w }, false),
            Node::Internal { split, ratio, left, right } => {
                let dominated = Node::matches_direction(split, direction);
                let in_left = left.contains(window);
                let in_right = right.contains(window);
                if in_left {
                    let ghost old_left = *left;
                    let (l2, r) = (*left).set_split_ratio_owned(window, direction, value);
                    if r {
                        (Node::Internal { split, ratio, left: Box::new(l2), right }, true)
                    } else {
                        assert(l2 == old_left);
                        if dominated {
                            (Node::Internal { split, ratio: value, left: Box::new(l2), right }, true)
                        } else {
                            (Node::Internal { split, ratio, left: Box::new(l2), right }, false)
                        }
                    }
                } else if in_right {
                    let ghost old_right = *right;
                    let (r2, r) = (*right).set_split_ratio_owned(window, direction, value);
                    if r {
                        (Node::Internal { split, ratio, left, right: Box::new(r2) }, true)
                    } else {
                        assert(r2 == old_right);
                        if dominated {
                            (Node::Internal { split, ratio: value, left, right: Box::new(r2) }, true)
                        } else {
                            (Node::Internal { split, ratio, left, right: Box::new(r2) }, false)
                        }
                    }
                } else {
                    (Node::Internal { split, ratio, left, right }, false)
                }
            },
        }
    }

    /// Set the split a resize of `window` toward `direction` would move to
    /// `value`. Returns whether there was such a split.
    pub fn set_split_ratio(&mut self, window: XWindow, direction: Direction, value: u32) -> (found: bool)
        ensures
            (*final(self), found) == old(self).spec_set_split_ratio(window, direction, value),
    {
        let mut t = Node::empty();
        std::mem::swap(&mut t, self);
        let (n, found) = t.set_split_ratio_owned(window, direction, value);
        *self = n;
        found
    }

    /// Whether laying the tree out in `rect` overflows no coordinate (see
    /// `layout_ok`).
    pub fn layout_fits(&self, rect: Rect) -> (b: bool)
        ensures
            b == self.layout_ok(rect),
        decreases self,
    {
        match self {
            Node::Leaf { .. } => true,
            Node::Internal { split, ratio, left, right } => {
                let len = match split {
                    SplitDirection::Horizontal => rect.height,
                    SplitDirection::Vertical => rect.width,
                };
                let s = split_length(len, *ratio);
                let sw: i32 = if s < 32768 { s as i32 } else { s as i32 - 65536 };
                let base: i32 = match split {
                    SplitDirection::Horizontal => rect.y as i32,
                    SplitDirection::Vertical => rect.x as i32,
                };
                let sum = base + sw;
                if sum < -32768 || sum > 32767 {
                    return false;
                }
                let (lr, rr) = rect.split(*split, *ratio);
                left.layout_fits(lr) && right.layout_fits(rr)
            },
        }
    }

    /// A copy of the tree.
    pub fn copy(&self) -> (n: Node)
        ensures
            n == *self,
        decreases self,
    {
        match self {
            Node::Leaf { window } => Node::Leaf { window: *window },
            Node::Internal { split, ratio, left, right } => Node::Internal {
                split: *split,
                ratio: *ratio,
                left: Box::new(left.copy()),
                right: Box::new(right.copy()),
            },
        }
    }

    fn swap_owned(self, a: XWindow, b: XWindow) -> (res: (Node, bool, bool))
        ensures
            res.0 == self.spec_swap(a, b),
            res.1 == self.window_seq().contains(a),
            res.2 == (a != b && self.window_seq().contains(b)),
        decreases self,
    {
        match self {
            Node::Leaf { window: Some(w) } => {
                proof {
                    assert(self.window_seq()[0] == w);
                }
                if w == a {
                    (Node::Leaf { window: Some(b) }, true, false)
                } else if w == b {
                    (Node::Leaf { window: Some(a) }, false, true)
                } else {
                    (Node::Leaf { window: Some(w) }, false, false)
                }
            },
            Node::Leaf { window: None } => (Node::Leaf { window: None }, false, false),
            Node::Internal { split, ratio, left, right } => {
                let (l, la, lb) = (*left).swap_owned(a, b);
                let (r, ra, rb) = (*right).swap_owned(a, b);
                proof {
                    lemma_concat_contains(left.window_seq(), right.window_seq(), a);
                    lemma_concat_contains(left.window_seq(), right.window_seq(), b);
                }
                (Node::Internal { split, ratio, left: Box::new(l), right: Box::new(r) }, la || ra, lb || rb)
            },
        }
    }

    /// Exchange the windows `a` and `b` wherever they stand. Returns whether
    /// both were found (never when `a == b`).
    pub fn swap(&mut self, a: XWindow, b: XWindow) -> (swapped: bool)
        ensures
            *final(self) == old(self).spec_swap(a, b),
            swapped == (a != b && old(self).window_seq().contains(a) && old(self).window_seq().contains(b)),
    {
        let mut t = Node::empty();
        std::mem::swap(&mut t, self);
        let (n, found_a, found_b) = t.swap_owned(a, b);
        *self = n;
        found_a && found_b
    }
}

/// The container `Node::insert` assumes: 1920 by 1080 pixels at the origin.
pub open spec fn default_container() -> Rect {
    Rect { x: 0, y: 0, width: 1920, height: 1080 }
}

/// Removing a window the tree does not hold changes nothing.
pub proof fn lemma_remove_absent(t: Node, w: XWindow)
    ensures
        !t.window_seq().contains(w) ==> t.spec_remove(w) == (t, false),
        t.spec_remove(w).1 == t.window_seq().contains(w),
        !t.spec_remove(w).1 ==> t.spec_remove(w).0 == t,
    decreases t,
{
    match t {
        Node::Leaf { window } => {
            if window == Some(w) {
                assert(t.window_seq()[0] == w);
            }
        },
        Node::Internal { left, right, .. } => {
            lemma_remove_absent(*left, w);
            lemma_remove_absent(*right, w);
            lemma_concat_contains(left.window_seq(), right.window_seq(), w);
        },
    }
}

pub proof fn lemma_concat_contains(a: Seq<XWindow>, b: Seq<XWindow>, x: XWindow)
    ensures
        (a + b).contains(x) <==> (a.contains(x) || b.contains(x)),
{
    if a.contains(x) {
        let i = choose|i: int| 0 <= i < a.len() && a[i] == x;
        assert((a + b)[i] == x);
    }
    if b.contains(x) {
        let i = choose|i: int| 0 <= i < b.len() && b[i] == x;
        assert((a + b)[a.len() + i] == x);
    }
    if (a + b).contains(x) {
        let i = choose|i: int| 0 <= i < (a + b).len() && (a + b)[i] == x;
        if i < a.len() {
            assert(a[i] == x);
        } else {
            assert(b[i - a.len()] == x);
        }
    }
}

/// The horizontal center of `r`, rounded toward its left edge.
pub open spec fn center_x(r: Rect) -> int {
    r.x + r.width / 2
}

/// The vertical center of `r`, rounded toward its top edge.
pub open spec fn center_y(r: Rect) -> int {
    r.y + r.height / 2
}

pub open spec fn abs_int(v: int) -> int {
    if v < 0 {
        -v
    } else {
        v
    }
}

/// The center of `r` lies strictly beyond the center of `from` toward `direction`.
pub open spec fn lies_toward(r: Rect, from: Rect, direction: Direction) -> bool {
    match direction {
        Direction::Left => center_x(r) < center_x(from),
        Direction::Right => center_x(r) > center_x(from),
        Direction::Up => center_y(r) < center_y(from),
        Direction::Down => center_y(r) > center_y(from),
    }
}

/// How far `r` is from `from` for a move toward `direction`: the distance
/// along the direction counts ten times the distance across it.
pub open spec fn adjacency_score(r: Rect, from: Rect, direction: Direction) -> int {
    let dx = abs_int(center_x(r) - center_x(from));
    let dy = abs_int(center_y(r) - center_y(from));
    match direction {
        Direction::Left | Direction::Right => dx * 10 + dy,
        Direction::Up | Direction::Down => dy * 10 + dx,
    }
}

/// Entry `i` of `g` is a window other than `from` lying toward `direction`.
pub open spec fn adjacent_candidate(
    g: Seq<(XWindow, Rect)>,
    i: int,
    from: XWindow,
    from_rect: Rect,
    direction: Direction,
) -> bool {
    &&& 0 <= i < g.len()
    &&& g[i].0 != from
    &&& lies_toward(g[i].1, from_rect, direction)
}

/// Entry `k` is the first candidate of least score.
pub open spec fn best_candidate(
    g: Seq<(XWindow, Rect)>,
    k: int,
    from: XWindow,
    from_rect: Rect,
    direction: Direction,
) -> bool {
    &&& adjacent_candidate(g, k, from, from_rect, direction)
    &&& forall|j: int|
        #[trigger] adjacent_candidate(g, j, from, from_rect, direction) ==> adjacency_score(
            g[k].1,
            from_rect,
            direction,
        ) <= adjacency_score(g[j].1, from_rect, direction)
    &&& forall|j: int|
        0 <= j < k && #[trigger] adjacent_candidate(g, j, from, from_rect, direction)
            ==> adjacency_score(g[j].1, from_rect, direction) > adjacency_score(
            g[k].1,
            from_rect,
            direction,
        )
}

/// Entry `f` is the first entry of `from`.
pub open spec fn first_entry(g: Seq<(XWindow, Rect)>, f: int, from: XWindow) -> bool {
    &&& 0 <= f < g.len()
    &&& g[f].0 == from
    &&& forall|j: int| 0 <= j < f ==> #[trigger] g[j].0 != from
}

/// The window to move to from `from` toward `direction` in layout `g`:
/// the first of least score among the windows lying that way from `from`'s
/// first entry; `None` when `from` is not laid out or none lies that way.
pub open spec fn spec_find_adjacent(g: Seq<(XWindow, Rect)>, from: XWindow, direction: Direction) -> Option<XWindow> {
    if exists|f: int| #[trigger] first_entry(g, f, from) {
        let f = choose|f: int| #[trigger] first_entry(g, f, from);
        if exists|k: int| #[trigger] best_candidate(g, k, from, g[f].1, direction) {
            let k = choose|k: int| #[trigger] best_candidate(g, k, from, g[f].1, direction);
            Some(g[k].0)
        } else {
            None
        }
    } else {
        None
    }
}

proof fn lemma_best_unique(g: Seq<(XWindow, Rect)>, k1: int, k2: int, from: XWindow, fr: Rect, direction: Direction)
    requires
        best_candidate(g, k1, from, fr, direction),
        best_candidate(g, k2, from, fr, direction),
    ensures
        k1 == k2,
{
    if k1 < k2 {
        assert(adjacent_candidate(g, k1, from, fr, direction));
    } else if k2 < k1 {
        assert(adjacent_candidate(g, k2, from, fr, direction));
    }
}

fn center(pos: i16, len: u16) -> (c: i64)
    ensures
        c == pos + len / 2,
{
    pos as i64 + (len / 2) as i64
}

fn score_of(r: &Rect, from: &Rect, direction: Direction) -> (s: i64)
    ensures
        s == adjacency_score(*r, *from, direction),
{
    let cx = center(r.x, r.width);
    let cy = center(r.y, r.height);
    let fx = center(from.x, from.width);
    let fy = center(from.y, from.height);
    let dx: i64 = if cx - fx < 0 { fx - cx } else { cx - fx };
    let dy: i64 = if cy - fy < 0 { fy - cy } else { cy - fy };
    match direction {
        Direction::Left | Direction::Right => dx * 10 + dy,
        Direction::Up | Direction::Down => dy * 10 + dx,
    }
}

fn toward(r: &Rect, from: &Rect, direction: Direction) -> (b: bool)
    ensures
        b == lies_toward(*r, *from, direction),
{
    let cx = center(r.x, r.width);
    let cy = center(r.y, r.height);
    let fx = center(from.x, from.width);
    let fy = center(from.y, from.height);
    match direction {
        Direction::Left => cx < fx,
        Direction::Right => cx > fx,
        Direction::Up => cy < fy,
        Direction::Down => cy > fy,
    }
}

impl Node {
    /// The window to move to from `from` toward `direction`, given the
    /// layout `geometries`: among the other windows whose centers lie
    /// beyond `from`'s center that way, the first of least score (see
    /// `adjacency_score`). `None` when `from` is not laid out or no window
    /// lies that way.
    pub fn find_adjacent(geometries: &[(XWindow, Rect)], from: XWindow, direction: Direction) -> (res: Option<XWindow>)
        ensures
            (forall|i: int| 0 <= i < geometries@.len() ==> #[trigger] geometries@[i].0 != from) ==> res is None,
            forall|f: int| #[trigger] first_entry(geometries@, f, from) ==> match res {
                None => forall|i: int| !#[trigger] adjacent_candidate(geometries@, i, from, geometries@[f].1, direction),
                Some(w) => exists|k: int| #[trigger] best_candidate(geometries@, k, from, geometries@[f].1, direction) && geometries@[k].0 == w,
            },
            res == spec_find_adjacent(geometries@, from, direction),
    {
        let g = geometries;
        let mut f: usize = 0;
        while f < g.len()
            invariant
                f <= g@.len(),
                forall|j: int| 0 <= j < f ==> #[trigger] g@[j].0 != from,
            ensures
                f <= g@.len(),
                forall|j: int| 0 <= j < f ==> #[trigger] g@[j].0 != from,
                f < g@.len() ==> g@[f as int].0 == from,
            decreases g@.len() - f,
        {
            if g[f].0 == from {
                break;
            }
            f = f + 1;
        }
        if f == g.len() {
            return None;
        }
        let from_rect = g[f].1;
        proof {
            assert(first_entry(g@, f as int, from));
            assert forall|f2: int| #[trigger] first_entry(g@, f2, from) implies f2 == f by {
                if f2 < f {
                    assert(g@[f2].0 != from);
                } else if f2 > f {
                    assert(g@[f as int].0 != from);
                }
            }
        }
        let mut best: Option<usize> = None;
        let mut best_score: i64 = 0;
        let mut i: usize = 0;
        while i < g.len()
            invariant
                i <= g@.len(),
                f < g@.len(),
                from_rect == g@[f as int].1,
                match best {
                    None => forall|j: int| 0 <= j < i ==> !#[trigger] adjacent_candidate(g@, j, from, from_rect, direction),
                    Some(k) => {
                        &&& k < i
                        &&& adjacent_candidate(g@, k as int, from, from_rect, direction)
                        &&& best_score == adjacency_score(g@[k as int].1, from_rect, direction)
                        &&& forall|j: int| 0 <= j < i && #[trigger] adjacent_candidate(g@, j, from, from_rect, direction)
                            ==> best_score <= adjacency_score(g@[j].1, from_rect, direction)
                        &&& forall|j: int| 0 <= j < k && #[trigger] adjacent_candidate(g@, j, from, from_rect, direction)
                            ==> adjacency_score(g@[j].1, from_rect, direction) > best_score
                    },
                },
            decreases g@.len() - i,
        {
            let (w, r) = g[i];
            if w != from && toward(&r, &from_rect, direction) {
                let sc = score_of(&r, &from_rect, direction);
                match best {
                    None => {
                        best = Some(i);
                        best_score = sc;
                    },
                    Some(_) => {
                        if sc < best_score {
                            best = Some(i);
                            best_score = sc;
                        }
                    },
                }
            }
            i = i + 1;
        }
        match best {
            None => {
                proof {
                    let f2 = choose|f2: int| #[trigger] first_entry(g@, f2, from);
                    assert(f2 == f);
                    if exists|k: int| #[trigger] best_candidate(g@, k, from, g@[f2].1, direction) {
                        let k = choose|k: int| #[trigger] best_candidate(g@, k, from, g@[f2].1, direction);
                        assert(adjacent_candidate(g@, k, from, from_rect, direction));
                    }
                }
                None
            },
            Some(k) => {
                proof {
                    assert(best_candidate(g@, k as int, from, from_rect, direction));
                    let f2 = choose|f2: int| #[trigger] first_entry(g@, f2, from);
                    assert(f2 == f);
                    let k2 = choose|k2: int| #[trigger] best_candidate(g@, k2, from, g@[f2].1, direction);
                    lemma_best_unique(g@, k as int, k2, from, from_rect, direction);
                }
                Some(g[k].0)
            },
        }
    }
}

impl Default for Rect {
    fn default() -> (r: Rect)
        ensures
            r == (Rect { x: 0, y: 0, width: 0, height: 0 }),
    {
        Rect { x: 0, y: 0, width: 0, height: 0 }
    }
}

} // verus!
