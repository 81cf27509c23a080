//! Pointer geometry: which edge of a window the pointer is at, and how a
//! drag on that edge resizes it.
use vstd::prelude::*;
use crate::text::{chars_are, chars_of, lowercase, to_lowercase};
use crate::wm::tree::{wrap_i16, Direction, Rect};

verus! {

/// How close to an edge (in pixels) the pointer must be to grab it.
pub const EDGE_THRESHOLD: i16 = 12;

/// The smallest width or height a resize leaves.
pub const MIN_SIZE: u16 = 50;

#[derive(Debug, Clone, Copy, PartialEq, Eq, Structural)]
pub enum ResizeEdge {
    TopLeft,
    Top,
    TopRight,
    Left,
    Right,
    BottomLeft,
    Bottom,
    BottomRight,
    /// Away from every edge.
    NoEdge,
}

/// The direction a word names, ignoring case.
pub open spec fn spec_parse_direction(s: Seq<char>) -> Option<Direction> {
    lower_direction(lowercase(s))
}

/// The direction a word already in lower case names.
pub open spec fn lower_direction(l: Seq<char>) -> Option<Direction> {
    if l == "left"@ {
        Some(Direction::Left)
    } else if l == "right"@ {
        Some(Direction::Right)
    } else if l == "up"@ {
        Some(Direction::Up)
    } else if l == "down"@ {
        Some(Direction::Down)
    } else {
        None
    }
}

/// Read `left`, `right`, `up` or `down` in any case.
pub fn parse_direction(s: &str) -> (d: Option<Direction>)
    ensures
        d == spec_parse_direction(s@),
{
    let lower = to_lowercase(s);
    let l = chars_of(lower.as_str());
    parse_lower_direction(l.as_slice())
}

/// Read `left`, `right`, `up` or `down`, already in lower case.
pub fn parse_lower_direction(l: &[char]) -> (d: Option<Direction>)
    ensures
        d == lower_direction(l@),
{
    if chars_are(l, "left") {
        Some(Direction::Left)
    } else if chars_are(l, "right") {
        Some(Direction::Right)
    } else if chars_are(l, "up") {
        Some(Direction::Up)
    } else if chars_are(l, "down") {
        Some(Direction::Down)
    } else {
        None
    }
}

/// The edge or corner of `g` within `EDGE_THRESHOLD` of the point, corners
/// first; `NoEdge` away from every edge.
pub open spec fn spec_resize_edge(g: Rect, px: i16, py: i16) -> ResizeEdge {
    let left = g.x as int;
    let right = g.x + wrap_i16(g.width);
    let top = g.y as int;
    let bottom = g.y + wrap_i16(g.height);
    let near_left = px >= left && px < left + 12;
    let near_right = px > right - 12 && px <= right;
    let near_top = py >= top && py < top + 12;
    let near_bottom = py > bottom - 12 && py <= bottom;
    if near_left && near_top {
        ResizeEdge::TopLeft
    } else if near_right && near_top {
        ResizeEdge::TopRight
    } else if near_left && near_bottom {
        ResizeEdge::BottomLeft
    } else if near_right && near_bottom {
        ResizeEdge::BottomRight
    } else if near_left {
        ResizeEdge::Left
    } else if near_right {
        ResizeEdge::Right
    } else if near_top {
        ResizeEdge::Top
    } else if near_bottom {
        ResizeEdge::Bottom
    } else {
        ResizeEdge::NoEdge
    }
}

fn as_signed(v: u16) -> (r: i32)
    ensures
        r == wrap_i16(v),
{
    if v < 32768 {
        v as i32
    } else {
        v as i32 - 65536
    }
}

/// Which edge or corner of `geometry` the point is at (see `spec_resize_edge`).
pub fn determine_resize_edge(geometry: &Rect, click_x: i16, click_y: i16) -> (e: ResizeEdge)
    ensures
        e == spec_resize_edge(*geometry, click_x, click_y),
{
    let left = geometry.x as i32;
    let right = geometry.x as i32 + as_signed(geometry.width);
    let top = geometry.y as i32;
    let bottom = geometry.y as i32 + as_signed(geometry.height);
    let cx = click_x as i32;
    let cy = click_y as i32;
    let near_left = cx >= left && cx < left + 12;
    let near_right = cx > right - 12 && cx <= right;
    let near_top = cy >= top && cy < top + 12;
    let near_bottom = cy > bottom - 12 && cy <= bottom;
    if near_left && near_top {
        ResizeEdge::TopLeft
    } else if near_right && near_top {
        ResizeEdge::TopRight
    } else if near_left && near_bottom {
        ResizeEdge::BottomLeft
    } else if near_right && near_bottom {
        ResizeEdge::BottomRight
    } else if near_left {
        ResizeEdge::Left
    } else if near_right {
        ResizeEdge::Right
    } else if near_top {
        ResizeEdge::Top
    } else if near_bottom {
        ResizeEdge::Bottom
    } else {
        ResizeEdge::NoEdge
    }
}

/// Rust's `/ 2` on an `i16`: rounds toward zero.
pub open spec fn half_i16(v: int) -> int {
    if v >= 0 {
        v / 2
    } else {
        -((-v) / 2)
    }
}

/// The corner of the quadrant of `g` the point is in, split at the center.
pub open spec fn spec_resize_edge_quadrant(g: Rect, px: i16, py: i16) -> ResizeEdge {
    let cx = g.x + half_i16(wrap_i16(g.width));
    let cy = g.y + half_i16(wrap_i16(g.height));
    if px < cx && py < cy {
        ResizeEdge::TopLeft
    } else if py < cy {
        ResizeEdge::TopRight
    } else if px < cx {
        ResizeEdge::BottomLeft
    } else {
        ResizeEdge::BottomRight
    }
}

fn half_of(v: i32) -> (r: i32)
    requires
        -65536 <= v <= 65536,
    ensures
        r == half_i16(v as int),
{
    if v >= 0 {
        v / 2
    } else {
        -((-v) / 2)
    }
}

/// The corner to resize from for a modifier-drag (see `spec_resize_edge_quadrant`).
pub fn determine_resize_edge_quadrant(geometry: &Rect, click_x: i16, click_y: i16) -> (e: ResizeEdge)
    ensures
        e == spec_resize_edge_quadrant(*geometry, click_x, click_y),
{
    let cx = geometry.x as i32 + half_of(as_signed(geometry.width));
    let cy = geometry.y as i32 + half_of(as_signed(geometry.height));
    let left = (click_x as i32) < cx;
    let up = (click_y as i32) < cy;
    if left && up {
        ResizeEdge::TopLeft
    } else if up {
        ResizeEdge::TopRight
    } else if left {
        ResizeEdge::BottomLeft
    } else {
        ResizeEdge::BottomRight
    }
}

/// `v` if it is at least `MIN_SIZE`, else `MIN_SIZE`.
pub open spec fn at_least_min(v: int) -> int {
    if v >= 50 {
        v
    } else {
        50
    }
}

pub open spec fn moves_left(e: ResizeEdge) -> bool {
    e == ResizeEdge::TopLeft || e == ResizeEdge::Left || e == ResizeEdge::BottomLeft
}

pub open spec fn moves_right(e: ResizeEdge) -> bool {
    e == ResizeEdge::TopRight || e == ResizeEdge::Right || e == ResizeEdge::BottomRight
}

pub open spec fn moves_top(e: ResizeEdge) -> bool {
    e == ResizeEdge::TopLeft || e == ResizeEdge::Top || e == ResizeEdge::TopRight
}

pub open spec fn moves_bottom(e: ResizeEdge) -> bool {
    e == ResizeEdge::BottomLeft || e == ResizeEdge::Bottom || e == ResizeEdge::BottomRight
}

/// The geometry after dragging `edge` of `g` by `(dx, dy)`: a left or top
/// edge moves the origin and shrinks by the same amount, a right or bottom
/// edge grows; no side drops below `MIN_SIZE`.
pub open spec fn spec_calculate_resize(g: Rect, edge: ResizeEdge, dx: i16, dy: i16) -> (i16, i16, u16, u16) {
    let x = if moves_left(edge) { g.x.wrapping_add(dx) } else { g.x };
    let y = if moves_top(edge) { g.y.wrapping_add(dy) } else { g.y };
    let w = if moves_left(edge) {
        at_least_min(wrap_i16(g.width) - dx)
    } else if moves_right(edge) {
        at_least_min(wrap_i16(g.width) + dx)
    } else {
        g.width as int
    };
    let h = if moves_top(edge) {
        at_least_min(wrap_i16(g.height) - dy)
    } else if moves_bottom(edge) {
        at_least_min(wrap_i16(g.height) + dy)
    } else {
        g.height as int
    };
    (x, y, w as u16, h as u16)
}

/// Resize `geometry` by dragging `edge` (see `spec_calculate_resize`).
pub fn calculate_resize(geometry: &Rect, edge: ResizeEdge, dx: i16, dy: i16) -> (r: (i16, i16, u16, u16))
    ensures
        r == spec_calculate_resize(*geometry, edge, dx, dy),
{
    let left = edge == ResizeEdge::TopLeft || edge == ResizeEdge::Left || edge == ResizeEdge::BottomLeft;
    let right = edge == ResizeEdge::TopRight || edge == ResizeEdge::Right || edge == ResizeEdge::BottomRight;
    let top = edge == ResizeEdge::TopLeft || edge == ResizeEdge::Top || edge == ResizeEdge::TopRight;
    let bottom = edge == ResizeEdge::BottomLeft || edge == ResizeEdge::Bottom || edge == ResizeEdge::BottomRight;
    let x: i16 = if left { geometry.x.wrapping_add(dx) } else { geometry.x };
    let y: i16 = if top { geometry.y.wrapping_add(dy) } else { geometry.y };
    let sw = as_signed(geometry.width);
    let sh = as_signed(geometry.height);
    let w: u16 = if left {
        let v = sw - dx as i32;
        if v >= 50 { v as u16 } else { 50 }
    } else if right {
        let v = sw + dx as i32;
        if v >= 50 { v as u16 } else { 50 }
    } else {
        geometry.width
    };
    let h: u16 = if top {
        let v = sh - dy as i32;
        if v >= 50 { v as u16 } else { 50 }
    } else if bottom {
        let v = sh + dy as i32;
        if v >= 50 { v as u16 } else { 50 }
    } else {
        geometry.height
    };
    (x, y, w, h)
}


/// Dragging an edge of a floating window moves that edge by the pointer's
/// travel and keeps the opposite edge where it was, as long as the side
/// stays at least `MIN_SIZE` long; a side whose edges are not dragged keeps
/// its position and length. Corners drag both of their edges.
pub proof fn law_drag_moves_the_edge(g: Rect, edge: ResizeEdge, dx: i16, dy: i16)
    requires
        g.width <= 32767,
        g.height <= 32767,
    ensures
        ({
            let r = spec_calculate_resize(g, edge, dx, dy);
            let left = edge == ResizeEdge::TopLeft || edge == ResizeEdge::Left || edge == ResizeEdge::BottomLeft;
            let right = edge == ResizeEdge::TopRight || edge == ResizeEdge::Right || edge == ResizeEdge::BottomRight;
            &&& (left && g.width - dx >= MIN_SIZE && i16::MIN <= g.x + dx <= i16::MAX)
                ==> r.0 == g.x + dx && r.0 + r.2 == g.x + g.width
            &&& (right && g.width + dx >= MIN_SIZE) ==> r.0 == g.x && r.0 + r.2 == g.x + g.width + dx
            &&& (!left && !right) ==> r.0 == g.x && r.2 == g.width
            &&& (left || right) ==> r.2 >= MIN_SIZE
        }),
        ({
            let r = spec_calculate_resize(g, edge, dx, dy);
            let top = edge == ResizeEdge::TopLeft || edge == ResizeEdge::Top || edge == ResizeEdge::TopRight;
            let bottom = edge == ResizeEdge::BottomLeft || edge == ResizeEdge::Bottom || edge == ResizeEdge::BottomRight;
            &&& (top && g.height - dy >= MIN_SIZE && i16::MIN <= g.y + dy <= i16::MAX)
                ==> r.1 == g.y + dy && r.1 + r.3 == g.y + g.height
            &&& (bottom && g.height + dy >= MIN_SIZE) ==> r.1 == g.y && r.1 + r.3 == g.y + g.height + dy
            &&& (!top && !bottom) ==> r.1 == g.y && r.3 == g.height
            &&& (top || bottom) ==> r.3 >= MIN_SIZE
        }),
{
}

} // verus!
