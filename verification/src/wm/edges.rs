//! Finding the border between two tiles that a pointer press or hover is
//! on, so that dragging it moves the split between them.
use vstd::prelude::*;
use crate::wm::manager::WindowManager;
use crate::wm::tree::{rect_fits, Direction, Rect, XWindow};

verus! {

pub open spec fn right_of(r: Rect) -> int {
    r.x + r.width
}

pub open spec fn bottom_of(r: Rect) -> int {
    r.y + r.height
}

pub open spec fn max_int(a: int, b: int) -> int {
    if a >= b { a } else { b }
}

pub open spec fn min_int(a: int, b: int) -> int {
    if a <= b { a } else { b }
}

pub open spec fn abs_of(v: int) -> int {
    if v >= 0 { v } else { -v }
}

/// The inner gap as the signed pixel count the edge search works with.
pub open spec fn gap_pixels(gap_inner: u32) -> int {
    (gap_inner as i16) as int
}

/// The point lies within `zone` pixels inside the `side` edge of `r`.
pub open spec fn near_side(side: Direction, r: Rect, x: int, y: int, zone: int) -> bool {
    match side {
        Direction::Left => x >= r.x && x < r.x + zone,
        Direction::Right => x > right_of(r) - zone && x <= right_of(r),
        Direction::Up => y >= r.y && y < r.y + zone,
        Direction::Down => y > bottom_of(r) - zone && y <= bottom_of(r),
    }
}

/// Tile `o` (another window than `window`) lies across the `side` edge of
/// `r`, at most the gap and four pixels away, and the point is level with
/// both tiles along that edge.
pub open spec fn borders_on(side: Direction, window: XWindow, r: Rect, x: int, y: int, gap: int, o: (XWindow, Rect)) -> bool {
    let q = o.1;
    &&& o.0 != window
    &&& match side {
        Direction::Left => abs_of(right_of(q) - r.x) <= gap + 4
            && y >= max_int(q.y as int, r.y as int) && y < min_int(bottom_of(q), bottom_of(r)),
        Direction::Right => abs_of(q.x - right_of(r)) <= gap + 4
            && y >= max_int(q.y as int, r.y as int) && y < min_int(bottom_of(q), bottom_of(r)),
        Direction::Up => abs_of(bottom_of(q) - r.y) <= gap + 4
            && x >= max_int(q.x as int, r.x as int) && x < min_int(right_of(q), right_of(r)),
        Direction::Down => abs_of(q.y - bottom_of(r)) <= gap + 4
            && x >= max_int(q.x as int, r.x as int) && x < min_int(right_of(q), right_of(r)),
    }
}

/// The first tile of `g` across the `side` edge (see `borders_on`).
pub open spec fn first_bordering(g: Seq<(XWindow, Rect)>, side: Direction, window: XWindow, r: Rect, x: int, y: int, gap: int) -> Option<XWindow>
    decreases g.len(),
{
    if g.len() == 0 {
        None
    } else if borders_on(side, window, r, x, y, gap, g[0]) {
        Some(g[0].0)
    } else {
        first_bordering(g.drop_first(), side, window, r, x, y, gap)
    }
}

/// The tile across the `side` edge of `r` when the point is near that edge.
pub open spec fn edge_partner(g: Seq<(XWindow, Rect)>, side: Direction, window: XWindow, r: Rect, x: int, y: int, gap: int) -> Option<XWindow> {
    if near_side(side, r, x, y, gap + 8) {
        first_bordering(g, side, window, r, x, y, gap)
    } else {
        None
    }
}

/// The border of tile `r` (of `window`) the point is on, as the window
/// left of or above it, the one right of or below it, and the direction
/// that moves it: the left edge is tried first, then the right, the top
/// and the bottom.
pub open spec fn spec_tiled_resize_edge(g: Seq<(XWindow, Rect)>, window: XWindow, r: Rect, x: int, y: int, gap: int) -> Option<(XWindow, XWindow, Direction)> {
    match edge_partner(g, Direction::Left, window, r, x, y, gap) {
        Some(o) => Some((o, window, Direction::Right)),
        None => match edge_partner(g, Direction::Right, window, r, x, y, gap) {
            Some(o) => Some((window, o, Direction::Right)),
            None => match edge_partner(g, Direction::Up, window, r, x, y, gap) {
                Some(o) => Some((o, window, Direction::Down)),
                None => match edge_partner(g, Direction::Down, window, r, x, y, gap) {
                    Some(o) => Some((window, o, Direction::Down)),
                    None => None,
                },
            },
        },
    }
}

/// The point is in the gap between `a` and `b`, `b` lying right of `a`
/// (`across`) or below it: the gap is at most the inner gap and sixteen
/// pixels, the point within four pixels of it, and level with both tiles.
pub open spec fn in_gap(across: bool, a: (XWindow, Rect), b: (XWindow, Rect), x: int, y: int, gap: int) -> bool {
    let (r1, r2) = (a.1, b.1);
    &&& a.0 != b.0
    &&& if across {
        let g = r2.x - right_of(r1);
        &&& 0 <= g <= gap + 16
        &&& right_of(r1) - 4 <= x <= r2.x + 4
        &&& max_int(r1.y as int, r2.y as int) <= y < min_int(bottom_of(r1), bottom_of(r2))
    } else {
        let g = r2.y - bottom_of(r1);
        &&& 0 <= g <= gap + 16
        &&& bottom_of(r1) - 4 <= y <= r2.y + 4
        &&& max_int(r1.x as int, r2.x as int) <= x < min_int(right_of(r1), right_of(r2))
    }
}

/// The first tile of `g` that `a` has the point in a gap with.
pub open spec fn first_gap_partner(g: Seq<(XWindow, Rect)>, a: (XWindow, Rect), across: bool, x: int, y: int, gap: int) -> Option<XWindow>
    decreases g.len(),
{
    if g.len() == 0 {
        None
    } else if in_gap(across, a, g[0], x, y, gap) {
        Some(g[0].0)
    } else {
        first_gap_partner(g.drop_first(), a, across, x, y, gap)
    }
}

/// The first pair, the first tile taken from `s` in order, then its
/// partner from `g`, with the point in their gap.
pub open spec fn first_gap_pair(s: Seq<(XWindow, Rect)>, g: Seq<(XWindow, Rect)>, across: bool, x: int, y: int, gap: int) -> Option<(XWindow, XWindow)>
    decreases s.len(),
{
    if s.len() == 0 {
        None
    } else {
        match first_gap_partner(g, s[0], across, x, y, gap) {
            Some(b) => Some((s[0].0, b)),
            None => first_gap_pair(s.drop_first(), g, across, x, y, gap),
        }
    }
}

/// The border whose gap the point is in: pairs side by side first, then
/// pairs one above the other.
pub open spec fn spec_edge_from_gap(g: Seq<(XWindow, Rect)>, x: int, y: int, gap: int) -> Option<(XWindow, XWindow, Direction)> {
    match first_gap_pair(g, g, true, x, y, gap) {
        Some((a, b)) => Some((a, b, Direction::Right)),
        None => match first_gap_pair(g, g, false, x, y, gap) {
            Some((a, b)) => Some((a, b, Direction::Down)),
            None => None,
        },
    }
}

/// Every tile fits the coordinate space.
pub open spec fn tiles_fit(g: Seq<(XWindow, Rect)>) -> bool {
    forall|i: int| 0 <= i < g.len() ==> rect_fits(#[trigger] g[i].1)
}

fn right_edge(r: &Rect) -> (v: i32)
    requires
        rect_fits(*r),
    ensures
        v == right_of(*r),
{
    r.x as i32 + r.width as i32
}

fn bottom_edge(r: &Rect) -> (v: i32)
    requires
        rect_fits(*r),
    ensures
        v == bottom_of(*r),
{
    r.y as i32 + r.height as i32
}

fn max_i32(a: i32, b: i32) -> (v: i32)
    ensures
        v == max_int(a as int, b as int),
{
    if a >= b { a } else { b }
}

fn min_i32(a: i32, b: i32) -> (v: i32)
    ensures
        v == min_int(a as int, b as int),
{
    if a <= b { a } else { b }
}

fn abs_i32(v: i32) -> (r: i32)
    requires
        -100000 <= v <= 100000,
    ensures
        r == abs_of(v as int),
{
    if v >= 0 { v } else { -v }
}

fn borders(side: Direction, window: XWindow, r: &Rect, x: i32, y: i32, gap: i32, o: &(XWindow, Rect)) -> (b: bool)
    requires
        rect_fits(*r),
        rect_fits(o.1),
        -40000 <= x <= 40000,
        -40000 <= y <= 40000,
        -40000 <= gap <= 40000,
    ensures
        b == borders_on(side, window, *r, x as int, y as int, gap as int, *o),
{
    let q = &o.1;
    if o.0 == window {
        return false;
    }
    match side {
        Direction::Left => abs_i32(right_edge(q) - r.x as i32) <= gap + 4
            && y >= max_i32(q.y as i32, r.y as i32) && y < min_i32(bottom_edge(q), bottom_edge(r)),
        Direction::Right => abs_i32(q.x as i32 - right_edge(r)) <= gap + 4
            && y >= max_i32(q.y as i32, r.y as i32) && y < min_i32(bottom_edge(q), bottom_edge(r)),
        Direction::Up => abs_i32(bottom_edge(q) - r.y as i32) <= gap + 4
            && x >= max_i32(q.x as i32, r.x as i32) && x < min_i32(right_edge(q), right_edge(r)),
        Direction::Down => abs_i32(q.y as i32 - bottom_edge(r)) <= gap + 4
            && x >= max_i32(q.x as i32, r.x as i32) && x < min_i32(right_edge(q), right_edge(r)),
    }
}

/// The first tile across the `side` edge of `r` (see `first_bordering`).
fn find_bordering(g: &[(XWindow, Rect)], side: Direction, window: XWindow, r: &Rect, x: i32, y: i32, gap: i32) -> (res: Option<XWindow>)
    requires
        tiles_fit(g@),
        rect_fits(*r),
        -40000 <= x <= 40000,
        -40000 <= y <= 40000,
        -40000 <= gap <= 40000,
    ensures
        res == first_bordering(g@, side, window, *r, x as int, y as int, gap as int),
{
    let mut i: usize = 0;
    assert(g@.subrange(0, g@.len() as int) =~= g@);
    while i < g.len()
        invariant
            i <= g@.len(),
            tiles_fit(g@),
            rect_fits(*r),
            -40000 <= x <= 40000,
            -40000 <= y <= 40000,
            -40000 <= gap <= 40000,
            first_bordering(g@, side, window, *r, x as int, y as int, gap as int)
                == first_bordering(g@.subrange(i as int, g@.len() as int), side, window, *r, x as int, y as int, gap as int),
        decreases g@.len() - i,
    {
        let ghost rest = g@.subrange(i as int, g@.len() as int);
        assert(rest[0] == g@[i as int]);
        assert(rest.drop_first() =~= g@.subrange(i + 1, g@.len() as int));
        assert(rect_fits(g@[i as int].1));
        if borders(side, window, r, x, y, gap, &g[i]) {
            return Some(g[i].0);
        }
        i = i + 1;
    }
    assert(g@.subrange(i as int, g@.len() as int) =~= Seq::<(XWindow, Rect)>::empty());
    None
}

fn near(side: Direction, r: &Rect, x: i32, y: i32, zone: i32) -> (b: bool)
    requires
        rect_fits(*r),
        -40000 <= x <= 40000,
        -40000 <= y <= 40000,
        -50000 <= zone <= 50000,
    ensures
        b == near_side(side, *r, x as int, y as int, zone as int),
{
    match side {
        Direction::Left => x >= r.x as i32 && x < r.x as i32 + zone,
        Direction::Right => x > right_edge(r) - zone && x <= right_edge(r),
        Direction::Up => y >= r.y as i32 && y < r.y as i32 + zone,
        Direction::Down => y > bottom_edge(r) - zone && y <= bottom_edge(r),
    }
}

fn partner_on(g: &[(XWindow, Rect)], side: Direction, window: XWindow, r: &Rect, x: i32, y: i32, gap: i32) -> (res: Option<XWindow>)
    requires
        tiles_fit(g@),
        rect_fits(*r),
        -40000 <= x <= 40000,
        -40000 <= y <= 40000,
        -40000 <= gap <= 40000,
    ensures
        res == edge_partner(g@, side, window, *r, x as int, y as int, gap as int),
{
    if near(side, r, x, y, gap + 8) {
        find_bordering(g, side, window, r, x, y, gap)
    } else {
        None
    }
}

fn gap_between(across: bool, a: &(XWindow, Rect), b: &(XWindow, Rect), x: i32, y: i32, gap: i32) -> (res: bool)
    requires
        rect_fits(a.1),
        rect_fits(b.1),
        -40000 <= x <= 40000,
        -40000 <= y <= 40000,
        -40000 <= gap <= 40000,
    ensures
        res == in_gap(across, *a, *b, x as int, y as int, gap as int),
{
    let r1 = &a.1;
    let r2 = &b.1;
    if a.0 == b.0 {
        return false;
    }
    if across {
        let g = r2.x as i32 - right_edge(r1);
        0 <= g && g <= gap + 16
            && right_edge(r1) - 4 <= x && x <= r2.x as i32 + 4
            && max_i32(r1.y as i32, r2.y as i32) <= y && y < min_i32(bottom_edge(r1), bottom_edge(r2))
    } else {
        let g = r2.y as i32 - bottom_edge(r1);
        0 <= g && g <= gap + 16
            && bottom_edge(r1) - 4 <= y && y <= r2.y as i32 + 4
            && max_i32(r1.x as i32, r2.x as i32) <= x && x < min_i32(right_edge(r1), right_edge(r2))
    }
}

fn find_gap_partner(g: &[(XWindow, Rect)], a: &(XWindow, Rect), across: bool, x: i32, y: i32, gap: i32) -> (res: Option<XWindow>)
    requires
        tiles_fit(g@),
        rect_fits(a.1),
        -40000 <= x <= 40000,
        -40000 <= y <= 40000,
        -40000 <= gap <= 40000,
    ensures
        res == first_gap_partner(g@, *a, across, x as int, y as int, gap as int),
{
    let mut i: usize = 0;
    assert(g@.subrange(0, g@.len() as int) =~= g@);
    while i < g.len()
        invariant
            i <= g@.len(),
            tiles_fit(g@),
            rect_fits(a.1),
            -40000 <= x <= 40000,
            -40000 <= y <= 40000,
            -40000 <= gap <= 40000,
            first_gap_partner(g@, *a, across, x as int, y as int, gap as int)
                == first_gap_partner(g@.subrange(i as int, g@.len() as int), *a, across, x as int, y as int, gap as int),
        decreases g@.len() - i,
    {
        let ghost rest = g@.subrange(i as int, g@.len() as int);
        assert(rest[0] == g@[i as int]);
        assert(rest.drop_first() =~= g@.subrange(i + 1, g@.len() as int));
        assert(rect_fits(g@[i as int].1));
        if gap_between(across, a, &g[i], x, y, gap) {
            return Some(g[i].0);
        }
        i = i + 1;
    }
    assert(g@.subrange(i as int, g@.len() as int) =~= Seq::<(XWindow, Rect)>::empty());
    None
}

fn find_gap_pair(g: &[(XWindow, Rect)], across: bool, x: i32, y: i32, gap: i32) -> (res: Option<(XWindow, XWindow)>)
    requires
        tiles_fit(g@),
        -40000 <= x <= 40000,
        -40000 <= y <= 40000,
        -40000 <= gap <= 40000,
    ensures
        res == first_gap_pair(g@, g@, across, x as int, y as int, gap as int),
{
    let mut i: usize = 0;
    assert(g@.subrange(0, g@.len() as int) =~= g@);
    while i < g.len()
        invariant
            i <= g@.len(),
            tiles_fit(g@),
            -40000 <= x <= 40000,
            -40000 <= y <= 40000,
            -40000 <= gap <= 40000,
            first_gap_pair(g@, g@, across, x as int, y as int, gap as int)
                == first_gap_pair(g@.subrange(i as int, g@.len() as int), g@, across, x as int, y as int, gap as int),
        decreases g@.len() - i,
    {
        let ghost rest = g@.subrange(i as int, g@.len() as int);
        assert(rest[0] == g@[i as int]);
        assert(rest.drop_first() =~= g@.subrange(i + 1, g@.len() as int));
        assert(rect_fits(g@[i as int].1));
        match find_gap_partner(g, &g[i], across, x, y, gap) {
            Some(b) => {
                return Some((g[i].0, b));
            },
            None => {},
        }
        i = i + 1;
    }
    assert(g@.subrange(i as int, g@.len() as int) =~= Seq::<(XWindow, Rect)>::empty());
    None
}

impl WindowManager {
    /// The border of the tile `rect` of `window` that the point is on and
    /// that another tile of `geometries` lies across (see
    /// `spec_tiled_resize_edge`), with the inner gap and eight pixels as
    /// the zone along each edge.
    pub fn find_tiled_resize_edge(&self, window: XWindow, rect: &Rect, x: i16, y: i16, geometries: &[(XWindow, Rect)]) -> (res: Option<(XWindow, XWindow, Direction)>)
        requires
            tiles_fit(geometries@),
            rect_fits(*rect),
        ensures
            res == spec_tiled_resize_edge(geometries@, window, *rect, x as int, y as int, gap_pixels(self.config.gap_inner)),
    {
        let gap = (self.config.gap_inner as i16) as i32;
        let px = x as i32;
        let py = y as i32;
        match partner_on(geometries, Direction::Left, window, rect, px, py, gap) {
            Some(o) => {
                return Some((o, window, Direction::Right));
            },
            None => {},
        }
        match partner_on(geometries, Direction::Right, window, rect, px, py, gap) {
            Some(o) => {
                return Some((window, o, Direction::Right));
            },
            None => {},
        }
        match partner_on(geometries, Direction::Up, window, rect, px, py, gap) {
            Some(o) => {
                return Some((o, window, Direction::Down));
            },
            None => {},
        }
        match partner_on(geometries, Direction::Down, window, rect, px, py, gap) {
            Some(o) => Some((window, o, Direction::Down)),
            None => None,
        }
    }

    /// The border whose gap the point is in, among the tiles of
    /// `geometries` (see `spec_edge_from_gap`).
    pub fn find_edge_from_gap(&self, x: i16, y: i16, geometries: &[(XWindow, Rect)]) -> (res: Option<(XWindow, XWindow, Direction)>)
        requires
            tiles_fit(geometries@),
        ensures
            res == spec_edge_from_gap(geometries@, x as int, y as int, gap_pixels(self.config.gap_inner)),
    {
        let gap = (self.config.gap_inner as i16) as i32;
        let px = x as i32;
        let py = y as i32;
        match find_gap_pair(geometries, true, px, py, gap) {
            Some((a, b)) => {
                return Some((a, b, Direction::Right));
            },
            None => {},
        }
        match find_gap_pair(geometries, false, px, py, gap) {
            Some((a, b)) => Some((a, b, Direction::Down)),
            None => None,
        }
    }
}

} // verus!
