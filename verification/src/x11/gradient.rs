//! Where a gradient border is painted: the strips of a frame's border, each
//! with the point between the two colors where its color lies.
use vstd::prelude::*;
use crate::text::str_eq;
use crate::wm::tree::{u16_as_i16, wrap_i16, Rect};

verus! {

/// Rectangles painted in one color, `num / den` of the way from the first
/// color to the second.
#[derive(Debug, Clone)]
pub struct GradientStrip {
    pub rects: Vec<Rect>,
    pub num: u32,
    pub den: u32,
}

/// A strip as its rectangles and fraction.
pub open spec fn strip_of(s: GradientStrip) -> (Seq<Rect>, u32, u32) {
    (s.rects@, s.num, s.den)
}

/// How the colors run along the border.
pub open spec fn spec_direction(d: Seq<char>) -> int {
    if d == "vertical"@ { 0 } else if d == "horizontal"@ { 1 } else { 2 }
}

/// The number of bands of the side and edge gradients: twice the border
/// width, at most 32.
pub open spec fn band_count(bw: u16) -> int {
    if 2 * bw < 32 { 2 * bw } else { 32 }
}

/// The last band's number (at least one), the fraction's denominator.
pub open spec fn band_den(bw: u16) -> int {
    if band_count(bw) - 1 > 1 { band_count(bw) - 1 } else { 1 }
}

pub open spec fn min_int(a: int, b: int) -> int {
    if a < b { a } else { b }
}

/// Band `i` of the left and right borders: a slice of the height.
pub open spec fn side_band(width: u16, height: u16, bw: u16, i: int) -> (Seq<Rect>, u32, u32) {
    let step = height as int / band_count(bw);
    let y = wrap_i16((i * step) as u16) as i16;
    let seg = min_int(step, height - i * step) as u16;
    (
        seq![
            Rect { x: 0, y, width: bw, height: seg },
            Rect { x: wrap_i16((width - bw) as u16) as i16, y, width: bw, height: seg },
        ],
        i as u32,
        band_den(bw) as u32,
    )
}

/// Band `i` of the top and bottom borders: a slice of the width.
pub open spec fn edge_band(width: u16, height: u16, bw: u16, i: int) -> (Seq<Rect>, u32, u32) {
    let step = width as int / band_count(bw);
    let x = wrap_i16((i * step) as u16) as i16;
    let seg = min_int(step, width - i * step) as u16;
    (
        seq![
            Rect { x, y: 0, width: seg, height: bw },
            Rect { x, y: wrap_i16((height - bw) as u16) as i16, width: seg, height: bw },
        ],
        i as u32,
        band_den(bw) as u32,
    )
}

pub open spec fn side_bands(width: u16, height: u16, bw: u16) -> Seq<(Seq<Rect>, u32, u32)> {
    Seq::new(band_count(bw) as nat, |i: int| side_band(width, height, bw, i))
}

pub open spec fn edge_bands(width: u16, height: u16, bw: u16) -> Seq<(Seq<Rect>, u32, u32)> {
    Seq::new(band_count(bw) as nat, |i: int| edge_band(width, height, bw, i))
}

/// The number of rows of the left and right borders between the top and
/// bottom ones.
pub open spec fn side_rows(height: u16, bw: u16) -> int {
    if height >= 2 * bw { height - 2 * bw } else { 0 }
}

/// The diagonal gradient, one pixel column or row at a time: the top and
/// bottom borders by column, then the left and right ones by row, each
/// colored by its distance along the diagonal over `width + height`.
pub open spec fn diagonal_bands(width: u16, height: u16, bw: u16) -> Seq<(Seq<Rect>, u32, u32)> {
    let den = (width + height) as u32;
    Seq::new(width as nat, |x: int| (seq![Rect { x: wrap_i16(x as u16) as i16, y: 0, width: 1, height: bw }], x as u32, den))
        + Seq::new(width as nat, |x: int| (
            seq![Rect { x: wrap_i16(x as u16) as i16, y: wrap_i16((height - bw) as u16) as i16, width: 1, height: bw }],
            (x + height - bw) as u32,
            den,
        ))
        + Seq::new(side_rows(height, bw) as nat, |k: int| (
            seq![Rect { x: 0, y: wrap_i16((bw + k) as u16) as i16, width: bw, height: 1 }],
            (bw + k) as u32,
            den,
        ))
        + Seq::new(side_rows(height, bw) as nat, |k: int| (
            seq![Rect { x: wrap_i16((width - bw) as u16) as i16, y: wrap_i16((bw + k) as u16) as i16, width: bw, height: 1 }],
            (width - bw + bw + k) as u32,
            den,
        ))
}

/// The strips of a gradient border of width `bw` around a frame of
/// `width` by `height`: none without a border; for "vertical" the side
/// bands then the edge bands, for "horizontal" the other way round, and
/// for anything else the diagonal.
pub open spec fn spec_gradient_plan(width: u16, height: u16, bw: u16, direction: Seq<char>) -> Seq<(Seq<Rect>, u32, u32)> {
    if bw == 0 {
        Seq::empty()
    } else if spec_direction(direction) == 0 {
        side_bands(width, height, bw) + edge_bands(width, height, bw)
    } else if spec_direction(direction) == 1 {
        edge_bands(width, height, bw) + side_bands(width, height, bw)
    } else {
        diagonal_bands(width, height, bw)
    }
}

/// The strips in order, by rectangles and fraction.
pub open spec fn strips_of(v: Seq<GradientStrip>) -> Seq<(Seq<Rect>, u32, u32)> {
    v.map_values(|s: GradientStrip| strip_of(s))
}

fn min_u16(a: u16, b: u16) -> (r: u16)
    ensures
        r == min_int(a as int, b as int),
{
    if a < b { a } else { b }
}

fn two_rects(a: Rect, b: Rect) -> (v: Vec<Rect>)
    ensures
        v@ == seq![a, b],
{
    let mut v: Vec<Rect> = Vec::new();
    v.push(a);
    v.push(b);
    assert(v@ =~= seq![a, b]);
    v
}

fn one_rect(a: Rect) -> (v: Vec<Rect>)
    ensures
        v@ == seq![a],
{
    let mut v: Vec<Rect> = Vec::new();
    v.push(a);
    assert(v@ =~= seq![a]);
    v
}

/// Append the side bands (`side`) or the edge bands.
fn push_bands(out: &mut Vec<GradientStrip>, width: u16, height: u16, bw: u16, side: bool)
    requires
        1 <= bw <= 32767,
        width >= bw,
        height >= bw,
    ensures
        strips_of(final(out)@) == strips_of(old(out)@) + (if side { side_bands(width, height, bw) } else { edge_bands(width, height, bw) }),
{
    let steps: u16 = if 2 * bw < 32 { 2 * bw } else { 32 };
    let den: u16 = if steps - 1 > 1 { steps - 1 } else { 1 };
    let len: u16 = if side { height } else { width };
    let step: u16 = len / steps;
    let ghost bands = if side { side_bands(width, height, bw) } else { edge_bands(width, height, bw) };
    let ghost start = strips_of(out@);
    let mut i: u16 = 0;
    while i < steps
        invariant
            steps as int == band_count(bw),
            den as int == band_den(bw),
            1 <= bw <= 32767,
            width >= bw,
            height >= bw,
            len == (if side { height } else { width }),
            step as int == len as int / steps as int,
            2 <= steps <= 32,
            i <= steps,
            bands == (if side { side_bands(width, height, bw) } else { edge_bands(width, height, bw) }),
            bands.len() == steps,
            strips_of(out@) == start + bands.subrange(0, i as int),
        decreases steps - i,
    {
        assert(i * step <= len) by (nonlinear_arith)
            requires
                i < steps,
                step == len as int / steps as int,
                steps >= 1,
        ;
        let at: u16 = i * step;
        let pos = u16_as_i16(at);
        let seg = min_u16(step, len - at);
        let rects = if side {
            two_rects(
                Rect { x: 0, y: pos, width: bw, height: seg },
                Rect { x: u16_as_i16(width - bw), y: pos, width: bw, height: seg },
            )
        } else {
            two_rects(
                Rect { x: pos, y: 0, width: seg, height: bw },
                Rect { x: pos, y: u16_as_i16(height - bw), width: seg, height: bw },
            )
        };
        let ghost before = out@;
        out.push(GradientStrip { rects, num: i as u32, den: den as u32 });
        proof {
            assert(strips_of(out@) =~= strips_of(before).push(strip_of(out@[out@.len() - 1])));
            assert(strip_of(out@[out@.len() - 1]) == bands[i as int]);
            assert(bands.subrange(0, i + 1) =~= bands.subrange(0, i as int).push(bands[i as int]));
        }
        i = i + 1;
    }
    assert(bands.subrange(0, steps as int) =~= bands);
}

/// Append one single-rectangle strip.
fn push_strip(out: &mut Vec<GradientStrip>, r: Rect, num: u32, den: u32)
    ensures
        strips_of(final(out)@) == strips_of(old(out)@).push((seq![r], num, den)),
{
    let ghost before = out@;
    out.push(GradientStrip { rects: one_rect(r), num, den });
    assert(strips_of(out@) =~= strips_of(before).push((seq![r], num, den)));
}

/// Append the diagonal gradient's strips.
fn push_diagonal(out: &mut Vec<GradientStrip>, width: u16, height: u16, bw: u16)
    requires
        1 <= bw <= 32767,
        width >= bw,
        height >= bw,
        width + height <= 65535,
    ensures
        strips_of(final(out)@) == strips_of(old(out)@) + diagonal_bands(width, height, bw),
{
    let den: u32 = (width + height) as u32;
    let ghost d = diagonal_bands(width, height, bw);
    let ghost top = Seq::new(width as nat, |x: int| (seq![Rect { x: wrap_i16(x as u16) as i16, y: 0, width: 1, height: bw }], x as u32, den));
    let ghost bottom = Seq::new(width as nat, |x: int| (
        seq![Rect { x: wrap_i16(x as u16) as i16, y: wrap_i16((height - bw) as u16) as i16, width: 1, height: bw }],
        (x + height - bw) as u32,
        den,
    ));
    let ghost left = Seq::new(side_rows(height, bw) as nat, |k: int| (
        seq![Rect { x: 0, y: wrap_i16((bw + k) as u16) as i16, width: bw, height: 1 }],
        (bw + k) as u32,
        den,
    ));
    let ghost right = Seq::new(side_rows(height, bw) as nat, |k: int| (
        seq![Rect { x: wrap_i16((width - bw) as u16) as i16, y: wrap_i16((bw + k) as u16) as i16, width: bw, height: 1 }],
        (width - bw + bw + k) as u32,
        den,
    ));
    assert(d == top + bottom + left + right);
    let ghost start = strips_of(out@);
    let bottom_y = u16_as_i16(height - bw);
    let mut x: u16 = 0;
    while x < width
        invariant
            x <= width,
            den == (width + height) as u32,
            top == Seq::new(width as nat, |x: int| (seq![Rect { x: wrap_i16(x as u16) as i16, y: 0, width: 1, height: bw }], x as u32, den)),
            strips_of(out@) == start + top.subrange(0, x as int),
        decreases width - x,
    {
        push_strip(out, Rect { x: u16_as_i16(x), y: 0, width: 1, height: bw }, x as u32, den);
        assert(top.subrange(0, x + 1) =~= top.subrange(0, x as int).push(top[x as int]));
        x = x + 1;
    }
    assert(top.subrange(0, width as int) =~= top);
    let ghost s1 = strips_of(out@);
    let mut x: u16 = 0;
    while x < width
        invariant
            x <= width,
            width >= bw,
            height >= bw,
            width + height <= 65535,
            den == (width + height) as u32,
            bottom_y == wrap_i16((height - bw) as u16),
            bottom == Seq::new(width as nat, |x: int| (
                seq![Rect { x: wrap_i16(x as u16) as i16, y: wrap_i16((height - bw) as u16) as i16, width: 1, height: bw }],
                (x + height - bw) as u32,
                den,
            )),
            strips_of(out@) == s1 + bottom.subrange(0, x as int),
        decreases width - x,
    {
        let num: u32 = x as u32 + (height - bw) as u32;
        push_strip(out, Rect { x: u16_as_i16(x), y: bottom_y, width: 1, height: bw }, num, den);
        assert(bottom.subrange(0, x + 1) =~= bottom.subrange(0, x as int).push(bottom[x as int]));
        x = x + 1;
    }
    assert(bottom.subrange(0, width as int) =~= bottom);
    let ghost s2 = strips_of(out@);
    let rows: u16 = if height >= 2 * bw { height - 2 * bw } else { 0 };
    let right_x = u16_as_i16(width - bw);
    let mut k: u16 = 0;
    while k < rows
        invariant
            k <= rows,
            rows as int == side_rows(height, bw),
            1 <= bw <= 32767,
            height >= bw,
            width + height <= 65535,
            den == (width + height) as u32,
            left == Seq::new(side_rows(height, bw) as nat, |k: int| (
                seq![Rect { x: 0, y: wrap_i16((bw + k) as u16) as i16, width: bw, height: 1 }],
                (bw + k) as u32,
                den,
            )),
            strips_of(out@) == s2 + left.subrange(0, k as int),
        decreases rows - k,
    {
        let y: u16 = bw + k;
        push_strip(out, Rect { x: 0, y: u16_as_i16(y), width: bw, height: 1 }, y as u32, den);
        assert(left.subrange(0, k + 1) =~= left.subrange(0, k as int).push(left[k as int]));
        k = k + 1;
    }
    assert(left.subrange(0, rows as int) =~= left);
    let ghost s3 = strips_of(out@);
    let mut k: u16 = 0;
    while k < rows
        invariant
            k <= rows,
            rows as int == side_rows(height, bw),
            1 <= bw <= 32767,
            width >= bw,
            height >= bw,
            width + height <= 65535,
            den == (width + height) as u32,
            right_x == wrap_i16((width - bw) as u16),
            right == Seq::new(side_rows(height, bw) as nat, |k: int| (
                seq![Rect { x: wrap_i16((width - bw) as u16) as i16, y: wrap_i16((bw + k) as u16) as i16, width: bw, height: 1 }],
                (width - bw + bw + k) as u32,
                den,
            )),
            strips_of(out@) == s3 + right.subrange(0, k as int),
        decreases rows - k,
    {
        let y: u16 = bw + k;
        let num: u32 = (width - bw) as u32 + y as u32;
        push_strip(out, Rect { x: right_x, y: u16_as_i16(y), width: bw, height: 1 }, num, den);
        assert(right.subrange(0, k + 1) =~= right.subrange(0, k as int).push(right[k as int]));
        k = k + 1;
    }
    assert(right.subrange(0, rows as int) =~= right);
    assert(strips_of(out@) =~= start + d);
}

/// The strips of a gradient border (see `spec_gradient_plan`).
pub fn gradient_plan(width: u16, height: u16, bw: u16, direction: &str) -> (v: Vec<GradientStrip>)
    requires
        bw > 0 ==> bw <= 32767 && width >= bw && height >= bw,
        bw > 0 && spec_direction(direction@) == 2 ==> width + height <= 65535,
    ensures
        strips_of(v@) == spec_gradient_plan(width, height, bw, direction@),
{
    let mut v: Vec<GradientStrip> = Vec::new();
    assert(strips_of(v@) =~= Seq::<(Seq<Rect>, u32, u32)>::empty());
    if bw == 0 {
        return v;
    }
    if str_eq(direction, "vertical") {
        push_bands(&mut v, width, height, bw, true);
        push_bands(&mut v, width, height, bw, false);
    } else if str_eq(direction, "horizontal") {
        push_bands(&mut v, width, height, bw, false);
        push_bands(&mut v, width, height, bw, true);
    } else {
        push_diagonal(&mut v, width, height, bw);
    }
    v
}

} // verus!
