use vstd::prelude::*;
use crate::wm::tree::{
    clamp_ratio, insert_after_first, insert_into, lemma_concat_contains, lemma_remove_absent,
    rect_fits, remove_first, spec_split, split_len, split_ok, swap_id, Direction, Node, Rect,
    SplitDirection, XWindow, RATIO_HALF, RATIO_MAX, RATIO_MIN, RATIO_SCALE,
};

verus! {

proof fn lemma_contains_drop_first(s: Seq<XWindow>, x: XWindow)
    requires
        s.len() > 0,
        s[0] != x,
    ensures
        s.contains(x) <==> s.drop_first().contains(x),
{
    if s.contains(x) {
        let i = choose|i: int| 0 <= i < s.len() && s[i] == x;
        assert(s.drop_first()[i - 1] == x);
    }
    if s.drop_first().contains(x) {
        let i = choose|i: int| 0 <= i < s.drop_first().len() && s.drop_first()[i] == x;
        assert(s[i + 1] == x);
    }
}

proof fn lemma_insert_after_first_concat(a: Seq<XWindow>, b: Seq<XWindow>, t: XWindow, w: XWindow)
    ensures
        insert_after_first(a + b, t, w) == (if a.contains(t) {
            insert_after_first(a, t, w) + b
        } else {
            a + insert_after_first(b, t, w)
        }),
    decreases a.len(),
{
    if a.len() == 0 {
        assert(a + b =~= b);
        assert(a + insert_after_first(b, t, w) =~= insert_after_first(b, t, w));
    } else {
        assert((a + b)[0] == a[0]);
        assert((a + b).drop_first() =~= a.drop_first() + b);
        if a[0] == t {
            assert(a.contains(t)) by {
                assert(a[0] == t);
            }
            assert(seq![t, w] + (a.drop_first() + b) =~= (seq![t, w] + a.drop_first()) + b);
        } else {
            lemma_contains_drop_first(a, t);
            lemma_insert_after_first_concat(a.drop_first(), b, t, w);
            if a.contains(t) {
                assert(seq![a[0]] + (insert_after_first(a.drop_first(), t, w) + b) =~= (seq![a[0]]
                    + insert_after_first(a.drop_first(), t, w)) + b);
            } else {
                assert(seq![a[0]] + (a.drop_first() + insert_after_first(b, t, w)) =~= a
                    + insert_after_first(b, t, w));
            }
        }
    }
}

proof fn lemma_remove_first_absent(s: Seq<XWindow>, w: XWindow)
    requires
        !s.contains(w),
    ensures
        remove_first(s, w) == s,
    decreases s.len(),
{
    if s.len() > 0 {
        assert(s[0] != w) by {
            if s[0] == w {
                assert(s.contains(w));
            }
        }
        lemma_contains_drop_first(s, w);
        lemma_remove_first_absent(s.drop_first(), w);
        assert(seq![s[0]] + s.drop_first() =~= s);
    }
}

/// Removing a window never lengthens a window sequence.
pub proof fn lemma_remove_first_len(s: Seq<XWindow>, w: XWindow)
    ensures
        remove_first(s, w).len() <= s.len(),
    decreases s.len(),
{
    if s.len() > 0 && s[0] != w {
        lemma_remove_first_len(s.drop_first(), w);
    }
}

proof fn lemma_remove_first_concat(a: Seq<XWindow>, b: Seq<XWindow>, w: XWindow)
    ensures
        remove_first(a + b, w) == (if a.contains(w) {
            remove_first(a, w) + b
        } else {
            a + remove_first(b, w)
        }),
    decreases a.len(),
{
    if a.len() == 0 {
        assert(a + b =~= b);
        assert(a + remove_first(b, w) =~= remove_first(b, w));
    } else {
        assert((a + b)[0] == a[0]);
        assert((a + b).drop_first() =~= a.drop_first() + b);
        if a[0] == w {
            assert(a.contains(w)) by {
                assert(a[0] == w);
            }
        } else {
            lemma_contains_drop_first(a, w);
            lemma_remove_first_concat(a.drop_first(), b, w);
            if a.contains(w) {
                assert(seq![a[0]] + (remove_first(a.drop_first(), w) + b) =~= (seq![a[0]]
                    + remove_first(a.drop_first(), w)) + b);
            } else {
                assert(seq![a[0]] + (a.drop_first() + remove_first(b, w)) =~= a + remove_first(
                    b,
                    w,
                ));
            }
        }
    }
}

/// Inserting a window places it in the window order right after its target,
/// or last when the target is absent or not given.
pub proof fn law_insert_window_order(t: Node, w: XWindow, target: Option<XWindow>, rect: Rect)
    ensures
        t.spec_insert(w, target, rect).window_seq() == insert_into(t.window_seq(), target, w),
    decreases t,
{
    match t {
        Node::Leaf { window } => {
            match window {
                Some(e) => {
                    assert(t.window_seq() =~= seq![e]);
                    assert((Node::Leaf { window: Some(e) }).window_seq() =~= seq![e]);
                    assert((Node::Leaf { window: Some(w) }).window_seq() =~= seq![w]);
                    if let Some(tg) = target {
                        if tg != e {
                            assert(!seq![e].contains(tg)) by {
                                if seq![e].contains(tg) {
                                    let i = choose|i: int| 0 <= i < 1 && seq![e][i] == tg;
                                }
                            }
                        }
                    }
                    assert(seq![e] + seq![w] =~= seq![e].push(w));
                    if target == Some(e) {
                        assert(seq![e].contains(e)) by {
                            assert(seq![e][0] == e);
                        }
                        assert(seq![e].drop_first() =~= Seq::<XWindow>::empty());
                        assert(seq![e, w] + Seq::<XWindow>::empty() =~= seq![e] + seq![w]);
                    }
                },
                None => {
                    assert(seq![w] =~= Seq::<XWindow>::empty().push(w));
                },
            }
        },
        Node::Internal { split, ratio, left, right } => {
            let (lr, rr) = spec_split(rect, split, ratio);
            let l = left.window_seq();
            let r = right.window_seq();
            lemma_concat_contains(l, r, w);
            match target {
                Some(tg) => {
                    lemma_concat_contains(l, r, tg);
                    lemma_insert_after_first_concat(l, r, tg, w);
                    if l.contains(tg) {
                        law_insert_window_order(*left, w, target, lr);
                    } else if r.contains(tg) {
                        law_insert_window_order(*right, w, target, rr);
                    } else {
                        law_insert_window_order(*right, w, None, rr);
                        assert(l + r.push(w) =~= (l + r).push(w));
                    }
                },
                None => {
                    law_insert_window_order(*right, w, None, rr);
                    assert(l + r.push(w) =~= (l + r).push(w));
                },
            }
        },
    }
}

/// Removing a window takes its first occurrence out of the window order
/// and reports whether there was one.
pub proof fn law_remove_window_order(t: Node, w: XWindow)
    ensures
        t.spec_remove(w).0.window_seq() == remove_first(t.window_seq(), w),
        t.spec_remove(w).1 == t.window_seq().contains(w),
    decreases t,
{
    lemma_remove_absent(t, w);
    match t {
        Node::Leaf { window } => {
            if window == Some(w) {
                assert(t.window_seq().drop_first() =~= Seq::<XWindow>::empty());
            } else {
                if t.window_seq().len() > 0 {
                    assert(t.window_seq()[0] != w);
                }
                lemma_remove_first_absent(t.window_seq(), w);
            }
        },
        Node::Internal { left, right, .. } => {
            law_remove_window_order(*left, w);
            law_remove_window_order(*right, w);
            lemma_remove_first_concat(left.window_seq(), right.window_seq(), w);
            lemma_concat_contains(left.window_seq(), right.window_seq(), w);
            if !left.window_seq().contains(w) && !right.window_seq().contains(w) {
                lemma_remove_first_absent(right.window_seq(), w);
            }
            let l2 = left.spec_remove(w).0;
            let r2 = right.spec_remove(w).0;
            if l2.empty_leaf() {
                assert(l2.window_seq() =~= Seq::<XWindow>::empty());
                assert(Seq::<XWindow>::empty() + right.window_seq() =~= right.window_seq());
            }
            if r2.empty_leaf() {
                assert(r2.window_seq() =~= Seq::<XWindow>::empty());
                assert(left.window_seq() + Seq::<XWindow>::empty() =~= left.window_seq());
            }
        },
    }
}

proof fn lemma_insert_shape(t: Node, w: XWindow, target: Option<XWindow>, rect: Rect)
    ensures
        t.no_empty_leaf() ==> t.spec_insert(w, target, rect).no_empty_leaf(),
        t.ratios_ok() ==> t.spec_insert(w, target, rect).ratios_ok(),
    decreases t,
{
    match t {
        Node::Leaf { window } => {
            let lw = Node::Leaf { window: Some(w) };
            assert(lw.no_empty_leaf() && lw.ratios_ok());
            if let Some(e) = window {
                let le = Node::Leaf { window: Some(e) };
                assert(le.no_empty_leaf() && le.ratios_ok());
            }
        },
        Node::Internal { split, ratio, left, right } => {
            let (lr, rr) = spec_split(rect, split, ratio);
            lemma_insert_shape(*left, w, target, lr);
            lemma_insert_shape(*right, w, target, rr);
            lemma_insert_shape(*right, w, None, rr);
        },
    }
}

/// Inserting into a well-formed tree leaves it well-formed.
pub proof fn law_insert_keeps_wf(t: Node, w: XWindow, target: Option<XWindow>, rect: Rect)
    requires
        t.wf(),
    ensures
        t.spec_insert(w, target, rect).wf(),
{
    lemma_insert_shape(t, w, target, rect);
}

proof fn lemma_remove_shape(t: Node, w: XWindow)
    ensures
        t.no_empty_leaf() ==> (t.spec_remove(w).0.no_empty_leaf() || t.spec_remove(w).0.empty_leaf()),
        t.no_empty_leaf() && t is Internal ==> t.spec_remove(w).0.no_empty_leaf(),
        t.ratios_ok() ==> t.spec_remove(w).0.ratios_ok(),
    decreases t,
{
    match t {
        Node::Leaf { .. } => {},
        Node::Internal { left, right, .. } => {
            lemma_remove_shape(*left, w);
            lemma_remove_shape(*right, w);
        },
    }
}

/// Removing a window from a well-formed tree leaves it well-formed.
pub proof fn law_remove_keeps_wf(t: Node, w: XWindow)
    requires
        t.wf(),
    ensures
        t.spec_remove(w).0.wf(),
{
    lemma_remove_shape(t, w);
}

proof fn lemma_equalize_shape(t: Node)
    ensures
        t.spec_equalize().window_seq() == t.window_seq(),
        t.no_empty_leaf() ==> t.spec_equalize().no_empty_leaf(),
        t.empty_leaf() ==> t.spec_equalize().empty_leaf(),
        t.spec_equalize().ratios_ok(),
    decreases t,
{
    match t {
        Node::Leaf { .. } => {},
        Node::Internal { left, right, .. } => {
            lemma_equalize_shape(*left);
            lemma_equalize_shape(*right);
        },
    }
}

/// Equalizing keeps the windows in their order and leaves a well-formed
/// tree well-formed, with every ratio at one half.
pub proof fn law_equalize(t: Node)
    requires
        t.wf(),
    ensures
        t.spec_equalize().wf(),
        t.spec_equalize().window_seq() == t.window_seq(),
        t.spec_equalize().spec_equalize() == t.spec_equalize(),
{
    lemma_equalize_shape(t);
    lemma_equalize_idempotent(t);
}

proof fn lemma_equalize_idempotent(t: Node)
    ensures
        t.spec_equalize().spec_equalize() == t.spec_equalize(),
    decreases t,
{
    match t {
        Node::Leaf { .. } => {},
        Node::Internal { left, right, .. } => {
            lemma_equalize_idempotent(*left);
            lemma_equalize_idempotent(*right);
        },
    }
}

proof fn lemma_resize_shape(t: Node, window: XWindow, direction: Direction, delta: int)
    ensures
        t.spec_resize(window, direction, delta).0.window_seq() == t.window_seq(),
        t.no_empty_leaf() ==> t.spec_resize(window, direction, delta).0.no_empty_leaf(),
        t.empty_leaf() ==> t.spec_resize(window, direction, delta).0.empty_leaf(),
        t.ratios_ok() ==> t.spec_resize(window, direction, delta).0.ratios_ok(),
    decreases t,
{
    match t {
        Node::Leaf { .. } => {},
        Node::Internal { ratio, left, right, .. } => {
            lemma_resize_shape(*left, window, direction, delta);
            lemma_resize_shape(*right, window, direction, delta);
            let v = ratio + delta;
            let v2 = ratio - delta;
            assert(RATIO_MIN <= clamp_ratio(v) <= RATIO_MAX);
            assert(RATIO_MIN <= clamp_ratio(v2) <= RATIO_MAX);
        },
    }
}

/// A resize keeps the windows in their order, leaves a well-formed tree
/// well-formed, and never moves a ratio outside `[RATIO_MIN, RATIO_MAX]`.
pub proof fn law_resize(t: Node, window: XWindow, direction: Direction, delta: int)
    requires
        t.wf(),
    ensures
        t.spec_resize(window, direction, delta).0.wf(),
        t.spec_resize(window, direction, delta).0.window_seq() == t.window_seq(),
        t.spec_resize(window, direction, delta).1 ==> t.window_seq().contains(window),
{
    lemma_resize_shape(t, window, direction, delta);
    lemma_resize_found(t, window, direction, delta);
}

proof fn lemma_resize_found(t: Node, window: XWindow, direction: Direction, delta: int)
    ensures
        t.spec_resize(window, direction, delta).1 ==> t.window_seq().contains(window),
    decreases t,
{
    match t {
        Node::Leaf { .. } => {},
        Node::Internal { left, right, .. } => {
            lemma_resize_found(*left, window, direction, delta);
            lemma_resize_found(*right, window, direction, delta);
            lemma_concat_contains(left.window_seq(), right.window_seq(), window);
        },
    }
}

/// Setting the split a resize would move leaves the windows where they
/// are, keeps a well-formed tree well-formed when the ratio is one a
/// resize can leave, and reading the ratio back gives what was set.
pub proof fn law_set_split_ratio(t: Node, window: XWindow, direction: Direction, value: u32)
    requires
        t.wf(),
        RATIO_MIN <= value <= RATIO_MAX,
    ensures
        t.spec_set_split_ratio(window, direction, value).0.wf(),
        t.spec_set_split_ratio(window, direction, value).0.window_seq() == t.window_seq(),
        t.spec_set_split_ratio(window, direction, value).1 == (t.spec_split_ratio(window, direction) is Some),
        t.spec_set_split_ratio(window, direction, value).1 ==> t.spec_set_split_ratio(window, direction, value).0.spec_split_ratio(window, direction) == Some(value),
{
    lemma_set_split_ratio_shape(t, window, direction, value);
}

proof fn lemma_set_split_ratio_shape(t: Node, window: XWindow, direction: Direction, value: u32)
    requires
        RATIO_MIN <= value <= RATIO_MAX,
    ensures
        t.spec_set_split_ratio(window, direction, value).0.window_seq() == t.window_seq(),
        t.ratios_ok() ==> t.spec_set_split_ratio(window, direction, value).0.ratios_ok(),
        t.no_empty_leaf() ==> t.spec_set_split_ratio(window, direction, value).0.no_empty_leaf(),
        t.empty_leaf() ==> t.spec_set_split_ratio(window, direction, value).0.empty_leaf(),
        t.spec_set_split_ratio(window, direction, value).1 == (t.spec_split_ratio(window, direction) is Some),
        t.spec_set_split_ratio(window, direction, value).1 ==> t.spec_set_split_ratio(window, direction, value).0.spec_split_ratio(window, direction) == Some(value),
    decreases t,
{
    match t {
        Node::Leaf { .. } => {},
        Node::Internal { left, right, .. } => {
            lemma_set_split_ratio_shape(*left, window, direction, value);
            lemma_set_split_ratio_shape(*right, window, direction, value);
        },
    }
}

/// Removing a window just inserted into a well-formed tree that did not
/// hold it gives back the tree as it was.
pub proof fn law_insert_then_remove(t: Node, w: XWindow, target: Option<XWindow>, rect: Rect)
    requires
        t.wf(),
        !t.window_seq().contains(w),
    ensures
        t.spec_insert(w, target, rect).spec_remove(w) == (t, true),
    decreases t,
{
    match t {
        Node::Leaf { window } => {
            match window {
                Some(e) => {
                    assert(t.window_seq()[0] == e);
                    assert(e != w);
                    let le = Node::Leaf { window: Some(e) };
                    let lw = Node::Leaf { window: Some(w) };
                    assert(le.spec_remove(w) == (le, false));
                    assert(lw.spec_remove(w) == (Node::Leaf { window: None }, true));
                },
                None => {
                    let lw = Node::Leaf { window: Some(w) };
                    assert(lw.spec_remove(w) == (Node::Leaf { window: None }, true));
                },
            }
        },
        Node::Internal { split, ratio, left, right } => {
            let (lr, rr) = spec_split(rect, split, ratio);
            lemma_concat_contains(left.window_seq(), right.window_seq(), w);
            lemma_remove_absent(*left, w);
            assert(left.wf() && right.wf());
            match target {
                Some(tg) => {
                    if left.window_seq().contains(tg) {
                        law_insert_then_remove(*left, w, target, lr);
                    } else if right.window_seq().contains(tg) {
                        law_insert_then_remove(*right, w, target, rr);
                    } else {
                        law_insert_then_remove(*right, w, None, rr);
                    }
                },
                None => {
                    law_insert_then_remove(*right, w, None, rr);
                },
            }
        },
    }
}

proof fn lemma_swap_id_involution(x: XWindow, a: XWindow, b: XWindow)
    ensures
        swap_id(swap_id(x, a, b), a, b) == x,
{
}

/// Swapping the same two windows twice gives back the tree; a swap keeps
/// every leaf in place and exchanges only the windows it holds, so a
/// well-formed tree stays well-formed.
pub proof fn law_swap(t: Node, a: XWindow, b: XWindow, rect: Rect)
    ensures
        t.spec_swap(a, b).spec_swap(a, b) == t,
        t.wf() ==> t.spec_swap(a, b).wf(),
        t.spec_swap(a, b).window_seq() == t.window_seq().map_values(|x: XWindow| swap_id(x, a, b)),
        t.spec_swap(a, b).spec_geometries(rect) == t.spec_geometries(rect).map_values(
            |p: (XWindow, Rect)| (swap_id(p.0, a, b), p.1),
        ),
    decreases t,
{
    match t {
        Node::Leaf { window } => {
            match window {
                Some(w) => {
                    lemma_swap_id_involution(w, a, b);
                    assert(t.spec_swap(a, b).window_seq() =~= t.window_seq().map_values(
                        |x: XWindow| swap_id(x, a, b),
                    ));
                    assert(t.spec_swap(a, b).spec_geometries(rect) =~= t.spec_geometries(
                        rect,
                    ).map_values(|p: (XWindow, Rect)| (swap_id(p.0, a, b), p.1)));
                },
                None => {
                    assert(t.spec_swap(a, b).window_seq() =~= t.window_seq().map_values(
                        |x: XWindow| swap_id(x, a, b),
                    ));
                    assert(t.spec_swap(a, b).spec_geometries(rect) =~= t.spec_geometries(
                        rect,
                    ).map_values(|p: (XWindow, Rect)| (swap_id(p.0, a, b), p.1)));
                },
            }
        },
        Node::Internal { split, ratio, left, right } => {
            let (lr, rr) = spec_split(rect, split, ratio);
            law_swap(*left, a, b, lr);
            law_swap(*right, a, b, rr);
            let f = |x: XWindow| swap_id(x, a, b);
            let g = |p: (XWindow, Rect)| (swap_id(p.0, a, b), p.1);
            assert((left.window_seq() + right.window_seq()).map_values(f) =~= left.window_seq().map_values(f)
                + right.window_seq().map_values(f));
            assert((left.spec_geometries(lr) + right.spec_geometries(rr)).map_values(g)
                =~= left.spec_geometries(lr).map_values(g) + right.spec_geometries(rr).map_values(g));
            lemma_swap_shape(t, a, b);
        },
    }
}

proof fn lemma_swap_shape(t: Node, a: XWindow, b: XWindow)
    ensures
        t.no_empty_leaf() ==> t.spec_swap(a, b).no_empty_leaf(),
        t.empty_leaf() ==> t.spec_swap(a, b).empty_leaf(),
        t.ratios_ok() ==> t.spec_swap(a, b).ratios_ok(),
    decreases t,
{
    match t {
        Node::Leaf { .. } => {},
        Node::Internal { left, right, .. } => {
            lemma_swap_shape(*left, a, b);
            lemma_swap_shape(*right, a, b);
        },
    }
}

/// The windows of a layout are the windows of the tree, in order.
pub proof fn law_geometries_windows(t: Node, rect: Rect)
    ensures
        t.spec_geometries(rect).map_values(|p: (XWindow, Rect)| p.0) == t.window_seq(),
    decreases t,
{
    let f = |p: (XWindow, Rect)| p.0;
    match t {
        Node::Leaf { window } => {
            assert(t.spec_geometries(rect).map_values(f) =~= t.window_seq());
        },
        Node::Internal { split, ratio, left, right } => {
            let (lr, rr) = spec_split(rect, split, ratio);
            law_geometries_windows(*left, lr);
            law_geometries_windows(*right, rr);
            assert((left.spec_geometries(lr) + right.spec_geometries(rr)).map_values(f)
                =~= left.spec_geometries(lr).map_values(f) + right.spec_geometries(rr).map_values(f));
        },
    }
}

/// `inner` lies inside `outer`.
pub open spec fn rect_within(inner: Rect, outer: Rect) -> bool {
    &&& outer.x <= inner.x
    &&& outer.y <= inner.y
    &&& inner.x + inner.width <= outer.x + outer.width
    &&& inner.y + inner.height <= outer.y + outer.height
}

proof fn lemma_split_len_bound(len: u16, ratio: u32)
    requires
        ratio <= RATIO_SCALE,
    ensures
        split_len(len, ratio) <= len,
{
    let p = len as int * ratio as int;
    assert(p <= len as int * 10000) by (nonlinear_arith)
        requires
            p == len as int * ratio as int,
            0 <= ratio <= 10000,
            0 <= len,
    ;
    assert(p / 10000 <= len) by (nonlinear_arith)
        requires
            0 <= p <= len as int * 10000,
            0 <= len,
    ;
}

proof fn lemma_split_fits(r: Rect, d: SplitDirection, ratio: u32)
    requires
        rect_fits(r),
        ratio <= RATIO_SCALE,
    ensures
        split_ok(r, d, ratio),
        rect_fits(spec_split(r, d, ratio).0),
        rect_fits(spec_split(r, d, ratio).1),
        rect_within(spec_split(r, d, ratio).0, r),
        rect_within(spec_split(r, d, ratio).1, r),
{
    lemma_split_len_bound(r.width, ratio);
    lemma_split_len_bound(r.height, ratio);
}

/// Ratios a resize can leave are fractions of the whole.
pub proof fn lemma_ratios_in_scale(t: Node)
    requires
        t.ratios_ok(),
    ensures
        t.ratios_in_scale(),
    decreases t,
{
    match t {
        Node::Leaf { .. } => {},
        Node::Internal { left, right, .. } => {
            lemma_ratios_in_scale(*left);
            lemma_ratios_in_scale(*right);
        },
    }
}

/// A tree whose ratios are fractions of the whole, laid out in a rectangle
/// whose far edges stay within the coordinate space, overflows nothing,
/// neither in a layout nor in an insertion, and places every window inside
/// that rectangle.
pub proof fn law_layout_fits(t: Node, rect: Rect, target: Option<XWindow>)
    requires
        t.ratios_in_scale(),
        rect_fits(rect),
    ensures
        t.layout_ok(rect),
        t.insert_ok(target, rect),
        forall|i: int|
            0 <= i < t.spec_geometries(rect).len() ==> rect_within(
                #[trigger] t.spec_geometries(rect)[i].1,
                rect,
            ),
    decreases t,
{
    match t {
        Node::Leaf { .. } => {},
        Node::Internal { split, ratio, left, right } => {
            lemma_split_fits(rect, split, ratio);
            let (lr, rr) = spec_split(rect, split, ratio);
            law_layout_fits(*left, lr, target);
            law_layout_fits(*right, rr, target);
            law_layout_fits(*right, rr, None);
            let gl = left.spec_geometries(lr);
            let gr = right.spec_geometries(rr);
            assert forall|i: int| 0 <= i < (gl + gr).len() implies rect_within(
                #[trigger] (gl + gr)[i].1,
                rect,
            ) by {
                if i < gl.len() {
                    assert(rect_within(gl[i].1, lr));
                } else {
                    assert(rect_within(gr[i - gl.len()].1, rr));
                }
            }
        },
    }
}


/// Two rectangles that share no pixel: one lies wholly to a side of the other.
pub open spec fn rects_apart(a: Rect, b: Rect) -> bool {
    ||| a.x + a.width <= b.x
    ||| b.x + b.width <= a.x
    ||| a.y + a.height <= b.y
    ||| b.y + b.height <= a.y
}

/// The number of pixels of a rectangle.
pub open spec fn rect_area(r: Rect) -> int {
    r.width * r.height
}

/// The pixels of all the rectangles of a layout, added up.
pub open spec fn total_area(g: Seq<(XWindow, Rect)>) -> int
    decreases g.len(),
{
    if g.len() == 0 {
        0
    } else {
        total_area(g.drop_last()) + rect_area(g.last().1)
    }
}

proof fn lemma_total_area_concat(a: Seq<(XWindow, Rect)>, b: Seq<(XWindow, Rect)>)
    ensures
        total_area(a + b) == total_area(a) + total_area(b),
    decreases b.len(),
{
    if b.len() == 0 {
        assert(a + b =~= a);
    } else {
        assert((a + b).drop_last() =~= a + b.drop_last());
        assert((a + b).last() == b.last());
        lemma_total_area_concat(a, b.drop_last());
    }
}

proof fn lemma_split_partitions(r: Rect, d: SplitDirection, ratio: u32)
    requires
        rect_fits(r),
        ratio <= RATIO_SCALE,
    ensures
        rects_apart(spec_split(r, d, ratio).0, spec_split(r, d, ratio).1),
        rect_area(spec_split(r, d, ratio).0) + rect_area(spec_split(r, d, ratio).1) == rect_area(r),
{
    lemma_split_len_bound(r.width, ratio);
    lemma_split_len_bound(r.height, ratio);
    let (a, b) = spec_split(r, d, ratio);
    match d {
        SplitDirection::Horizontal => {
            let s = split_len(r.height, ratio) as int;
            let w = r.width as int;
            let h = r.height as int;
            assert(w * s + w * (h - s) == w * h) by (nonlinear_arith);
        },
        SplitDirection::Vertical => {
            let s = split_len(r.width, ratio) as int;
            let w = r.width as int;
            let h = r.height as int;
            assert(s * h + (w - s) * h == w * h) by (nonlinear_arith);
        },
    }
}

proof fn lemma_apart_within(a: Rect, b: Rect, outer_a: Rect, outer_b: Rect)
    requires
        rect_within(a, outer_a),
        rect_within(b, outer_b),
        rects_apart(outer_a, outer_b),
    ensures
        rects_apart(a, b),
{
}

/// Laying out a tree whose ratios are fractions of the whole, in a
/// rectangle that fits the coordinate space, tiles it: no two windows share a pixel and,
/// when every leaf holds a window, the windows' pixels add up to the
/// rectangle's, so together they cover it.
pub proof fn law_layout_tiles(t: Node, rect: Rect)
    requires
        t.ratios_in_scale(),
        rect_fits(rect),
    ensures
        forall|i: int, j: int|
            0 <= i < j < t.spec_geometries(rect).len() ==> rects_apart(
                #[trigger] t.spec_geometries(rect)[i].1,
                #[trigger] t.spec_geometries(rect)[j].1,
            ),
        t.no_empty_leaf() ==> total_area(t.spec_geometries(rect)) == rect_area(rect),
    decreases t,
{
    match t {
        Node::Leaf { window } => {
            if window is Some {
                let g = t.spec_geometries(rect);
                assert(g.drop_last() =~= Seq::<(XWindow, Rect)>::empty());
                assert(total_area(g.drop_last()) == 0);
                assert(g.last().1 == rect);
                assert(total_area(g) == rect_area(rect));
            }
        },
        Node::Internal { split, ratio, left, right } => {
            lemma_split_fits(rect, split, ratio);
            lemma_split_partitions(rect, split, ratio);
            let (lr, rr) = spec_split(rect, split, ratio);
            law_layout_tiles(*left, lr);
            law_layout_tiles(*right, rr);
            law_layout_fits(*left, lr, None);
            law_layout_fits(*right, rr, None);
            let gl = left.spec_geometries(lr);
            let gr = right.spec_geometries(rr);
            let g = gl + gr;
            assert(t.spec_geometries(rect) == g);
            assert forall|i: int, j: int| 0 <= i < j < g.len() implies rects_apart(#[trigger] g[i].1, #[trigger] g[j].1) by {
                if j < gl.len() {
                    assert(g[i] == gl[i] && g[j] == gl[j]);
                } else if i >= gl.len() {
                    assert(g[i] == gr[i - gl.len()] && g[j] == gr[j - gl.len()]);
                } else {
                    assert(g[i] == gl[i] && g[j] == gr[j - gl.len()]);
                    assert(rect_within(gl[i].1, lr));
                    assert(rect_within(gr[j - gl.len()].1, rr));
                    lemma_apart_within(gl[i].1, gr[j - gl.len()].1, lr, rr);
                }
            }
            lemma_total_area_concat(gl, gr);
        },
    }
}


/// Whether `window` lies in the first part (the left or top one) of the
/// split a resize of it toward `direction` moves (see `spec_split_ratio`).
pub open spec fn in_first_part(t: Node, window: XWindow, direction: Direction) -> bool
    decreases t,
{
    match t {
        Node::Leaf { .. } => false,
        Node::Internal { left, right, .. } => {
            let in_left = left.window_seq().contains(window);
            let in_right = right.window_seq().contains(window);
            if in_left && left.spec_split_ratio(window, direction) is Some {
                in_first_part(*left, window, direction)
            } else if !in_left && in_right && right.spec_split_ratio(window, direction) is Some {
                in_first_part(*right, window, direction)
            } else {
                in_left
            }
        },
    }
}

/// A resize moves a split exactly when there is one to move.
proof fn lemma_resize_moves_iff(t: Node, window: XWindow, direction: Direction, delta: int)
    ensures
        t.spec_resize(window, direction, delta).1 == (t.spec_split_ratio(window, direction) is Some),
    decreases t,
{
    match t {
        Node::Leaf { .. } => {},
        Node::Internal { left, right, .. } => {
            lemma_resize_moves_iff(*left, window, direction, delta);
            lemma_resize_moves_iff(*right, window, direction, delta);
        },
    }
}

/// Resizing a window toward `direction` by `delta >= 0` moves the split
/// around it so that its side grows toward `direction`: toward Right or
/// Down a window in the first part of the split never lowers the split's
/// ratio (the first part's share) and one in the second part never raises
/// it; toward Left or Up the other way round. Away from the bounds
/// `[RATIO_MIN, RATIO_MAX]` a positive `delta` always changes the ratio.
pub proof fn law_resize_grows_toward(t: Node, window: XWindow, direction: Direction, delta: int)
    requires
        t.ratios_ok(),
        t.spec_split_ratio(window, direction) is Some,
        delta >= 0,
    ensures
        ({
            let before = t.spec_split_ratio(window, direction)->0;
            let (t2, moved) = t.spec_resize(window, direction, delta);
            let grow_first = (direction == Direction::Right || direction == Direction::Down) == in_first_part(t, window, direction);
            &&& moved
            &&& t2.spec_split_ratio(window, direction) is Some
            &&& in_first_part(t2, window, direction) == in_first_part(t, window, direction)
            &&& grow_first ==> t2.spec_split_ratio(window, direction)->0 >= before
            &&& !grow_first ==> t2.spec_split_ratio(window, direction)->0 <= before
            &&& (grow_first && delta > 0 && before < RATIO_MAX) ==> t2.spec_split_ratio(window, direction)->0 > before
            &&& (!grow_first && delta > 0 && before > RATIO_MIN) ==> t2.spec_split_ratio(window, direction)->0 < before
        }),
    decreases t,
{
    lemma_resize_moves_iff(t, window, direction, delta);
    match t {
        Node::Leaf { .. } => {},
        Node::Internal { split, ratio, left, right } => {
            lemma_resize_shape(*left, window, direction, delta);
            lemma_resize_shape(*right, window, direction, delta);
            let in_left = left.window_seq().contains(window);
            let in_right = right.window_seq().contains(window);
            if in_left && left.spec_split_ratio(window, direction) is Some {
                law_resize_grows_toward(*left, window, direction, delta);
            } else if !in_left && in_right && right.spec_split_ratio(window, direction) is Some {
                law_resize_grows_toward(*right, window, direction, delta);
            } else {
                lemma_resize_moves_iff(*left, window, direction, delta);
                lemma_resize_moves_iff(*right, window, direction, delta);
            }
        },
    }
}

} // verus!
