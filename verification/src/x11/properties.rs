//! Reading window properties (ICCCM and EWMH hints, struts, class) and the
//! keyboard mapping, once the program around the library has fetched them
//! from the X server, and writing the desktop names property.
use vstd::prelude::*;
use vstd::utf8::{encode_utf8, valid_utf8};
use crate::wm::monitor::Monitor;

verus! {

/// The `ATOM` property type.
pub const ATOM_TYPE: u32 = 4;
/// The `CARDINAL` property type.
pub const CARDINAL_TYPE: u32 = 6;
/// The `WINDOW` property type.
pub const WINDOW_TYPE: u32 = 33;

/// A property as the X server returned it: its type, its format (the
/// width of its items in bits), its length in bytes, and its value read
/// as 32-bit items (four bytes each, in the connection's byte order).
#[derive(Debug, Clone)]
pub struct Property {
    pub kind: u32,
    pub format: u8,
    pub len: usize,
    pub words: Vec<u32>,
}

/// The atoms the window-type and state decisions look for.
#[derive(Debug, Clone, Copy)]
pub struct TypeAtoms {
    pub dialog: u32,
    pub utility: u32,
    pub toolbar: u32,
    pub splash: u32,
    pub notification: u32,
    pub dock: u32,
    pub desktop: u32,
    pub modal: u32,
}

/// `WM_HINTS` (ICCCM).
#[derive(Debug, Clone, Copy, PartialEq, Eq, Structural)]
pub struct WmHints {
    /// Whether the window wants the keyboard focus.
    pub input: bool,
    pub initial_state: Option<u32>,
    pub urgent: bool,
}

/// `WM_NORMAL_HINTS` (ICCCM).
#[derive(Debug, Clone, Copy, Default, PartialEq, Eq, Structural)]
pub struct SizeHints {
    pub min_width: Option<u32>,
    pub min_height: Option<u32>,
    pub max_width: Option<u32>,
    pub max_height: Option<u32>,
    pub base_width: Option<u32>,
    pub base_height: Option<u32>,
    pub width_inc: Option<u32>,
    pub height_inc: Option<u32>,
}

/// The screen area a dock reserves at each edge, in pixels.
#[derive(Debug, Clone, Copy, Default, PartialEq, Eq, Structural)]
pub struct Strut {
    pub left: u32,
    pub right: u32,
    pub top: u32,
    pub bottom: u32,
}

/// A list of atoms, as a property of type `ATOM` and format 32 holds it.
pub open spec fn atom_list(p: Option<Property>) -> Option<Seq<u32>> {
    match p {
        Some(q) => if q.kind == ATOM_TYPE && q.format == 32 { Some(q.words@) } else { None },
        None => None,
    }
}

/// `s` holds one of `atoms`.
pub open spec fn has_any(s: Seq<u32>, atoms: Seq<u32>) -> bool {
    exists|i: int, j: int| 0 <= i < s.len() && 0 <= j < atoms.len() && #[trigger] s[i] == #[trigger] atoms[j]
}

/// The list holds one of `atoms`.
pub open spec fn lists_any(l: Option<Seq<u32>>, atoms: Seq<u32>) -> bool {
    match l {
        Some(s) => has_any(s, atoms),
        None => false,
    }
}

fn any_of(words: &Vec<u32>, atoms: &[u32]) -> (b: bool)
    ensures
        b == has_any(words@, atoms@),
{
    let mut i: usize = 0;
    while i < words.len()
        invariant
            i <= words@.len(),
            forall|a: int, j: int| 0 <= a < i && 0 <= j < atoms@.len() ==> #[trigger] words@[a] != #[trigger] atoms@[j],
        decreases words@.len() - i,
    {
        let mut j: usize = 0;
        while j < atoms.len()
            invariant
                i < words@.len(),
                j <= atoms@.len(),
                forall|a: int, k: int| 0 <= a < i && 0 <= k < atoms@.len() ==> #[trigger] words@[a] != #[trigger] atoms@[k],
                forall|k: int| 0 <= k < j ==> words@[i as int] != #[trigger] atoms@[k],
            decreases atoms@.len() - j,
        {
            if words[i] == atoms[j] {
                assert(words@[i as int] == atoms@[j as int]);
                return true;
            }
            j = j + 1;
        }
        i = i + 1;
    }
    false
}

fn lists(p: &Option<Property>, atoms: &[u32]) -> (b: bool)
    ensures
        b == lists_any(atom_list(*p), atoms@),
{
    match p {
        Some(q) => {
            if q.kind == ATOM_TYPE && q.format == 32 {
                assert(atom_list(*p) == Some(q.words@));
                any_of(&q.words, atoms)
            } else {
                false
            }
        },
        None => false,
    }
}

/// Whether a new window should float: it is transient for another window
/// (`WM_TRANSIENT_FOR` holds a window), its type is a dialog, utility,
/// toolbar, splash or notification, or it is modal.
pub open spec fn spec_should_float(transient_for: Option<Property>, window_type: Option<Property>, state: Option<Property>, a: TypeAtoms) -> bool {
    ||| transient_for matches Some(t) && t.kind == WINDOW_TYPE && t.len > 0
    ||| lists_any(atom_list(window_type), seq![a.dialog, a.utility, a.toolbar, a.splash, a.notification])
    ||| lists_any(atom_list(state), seq![a.modal])
}

/// Whether a window should float (see `spec_should_float`), from its
/// `WM_TRANSIENT_FOR`, `_NET_WM_WINDOW_TYPE` and `_NET_WM_STATE`.
pub fn should_float(transient_for: &Option<Property>, window_type: &Option<Property>, state: &Option<Property>, atoms: &TypeAtoms) -> (b: bool)
    ensures
        b == spec_should_float(*transient_for, *window_type, *state, *atoms),
{
    match transient_for {
        Some(t) => {
            if t.kind == WINDOW_TYPE && t.len > 0 {
                return true;
            }
        },
        None => {},
    }
    let floating = [atoms.dialog, atoms.utility, atoms.toolbar, atoms.splash, atoms.notification];
    proof {
        assert(floating@ =~= seq![atoms.dialog, atoms.utility, atoms.toolbar, atoms.splash, atoms.notification]);
    }
    if lists(window_type, &floating) {
        return true;
    }
    let modal = [atoms.modal];
    proof {
        assert(modal@ =~= seq![atoms.modal]);
    }
    lists(state, &modal)
}

/// Whether a window is a dock or a desktop, to be mapped but not managed,
/// from its `_NET_WM_WINDOW_TYPE`.
pub fn should_ignore(window_type: &Option<Property>, atoms: &TypeAtoms) -> (b: bool)
    ensures
        b == lists_any(atom_list(*window_type), seq![atoms.dock, atoms.desktop]),
{
    let ignored = [atoms.dock, atoms.desktop];
    proof {
        assert(ignored@ =~= seq![atoms.dock, atoms.desktop]);
    }
    lists(window_type, &ignored)
}

/// Whether a window's `WM_PROTOCOLS` list `WM_DELETE_WINDOW`.
pub fn supports_delete_window(protocols: &Option<Property>, delete_window: u32) -> (b: bool)
    ensures
        b == lists_any(atom_list(*protocols), seq![delete_window]),
{
    let wanted = [delete_window];
    proof {
        assert(wanted@ =~= seq![delete_window]);
    }
    lists(protocols, &wanted)
}

/// The items of a 32-bit property of at least four bytes.
pub open spec fn words_of(p: Option<Property>) -> Option<Seq<u32>> {
    match p {
        Some(q) => if q.format == 32 && q.len >= 4 && q.words@.len() > 0 { Some(q.words@) } else { None },
        None => None,
    }
}

/// `WM_HINTS` read from its items: the input flag when flagged (bit 0) and
/// given, else true; the initial state when flagged (bit 1) and given; the
/// urgency flag (bit 8).
pub open spec fn spec_wm_hints(p: Option<Property>) -> Option<WmHints> {
    match words_of(p) {
        Some(v) => {
            let flags = v[0];
            Some(WmHints {
                input: if flags & 1 != 0 && v.len() > 1 { v[1] != 0 } else { true },
                initial_state: if flags & 2 != 0 && v.len() > 2 { Some(v[2]) } else { None },
                urgent: flags & 256 != 0,
            })
        },
        None => None,
    }
}

/// Read `WM_HINTS` (see `spec_wm_hints`).
pub fn get_wm_hints(p: &Option<Property>) -> (h: Option<WmHints>)
    ensures
        h == spec_wm_hints(*p),
{
    let q = match p {
        Some(q) => q,
        None => {
            return None;
        },
    };
    if q.format != 32 || q.len < 4 || q.words.len() == 0 {
        return None;
    }
    let v = &q.words;
    let flags = v[0];
    Some(WmHints {
        input: if flags & 1 != 0 && v.len() > 1 { v[1] != 0 } else { true },
        initial_state: if flags & 2 != 0 && v.len() > 2 { Some(v[2]) } else { None },
        urgent: flags & 256 != 0,
    })
}

/// The pair of items `i` and `i + 1` when the flag bit is set and the
/// items are given.
pub open spec fn flagged_pair(v: Seq<u32>, bit: u32, i: int) -> (Option<u32>, Option<u32>) {
    if v[0] & bit != 0 && v.len() > i + 1 { (Some(v[i]), Some(v[i + 1])) } else { (None, None) }
}

/// `WM_NORMAL_HINTS` read from its items: the minimum size (bit 4, items
/// 5 and 6), the maximum size (bit 5, items 7 and 8), the resize steps
/// (bit 6, items 9 and 10) and the base size (bit 8, items 15 and 16).
pub open spec fn spec_size_hints(p: Option<Property>) -> Option<SizeHints> {
    match words_of(p) {
        Some(v) => Some(SizeHints {
            min_width: flagged_pair(v, 16, 5).0,
            min_height: flagged_pair(v, 16, 5).1,
            max_width: flagged_pair(v, 32, 7).0,
            max_height: flagged_pair(v, 32, 7).1,
            width_inc: flagged_pair(v, 64, 9).0,
            height_inc: flagged_pair(v, 64, 9).1,
            base_width: flagged_pair(v, 256, 15).0,
            base_height: flagged_pair(v, 256, 15).1,
        }),
        None => None,
    }
}

fn pair_of(v: &Vec<u32>, bit: u32, i: usize) -> (r: (Option<u32>, Option<u32>))
    requires
        v@.len() > 0,
        i < 100,
    ensures
        r == flagged_pair(v@, bit, i as int),
{
    if v[0] & bit != 0 && v.len() > i + 1 {
        (Some(v[i]), Some(v[i + 1]))
    } else {
        (None, None)
    }
}

/// Read `WM_NORMAL_HINTS` (see `spec_size_hints`).
pub fn get_size_hints(p: &Option<Property>) -> (h: Option<SizeHints>)
    ensures
        h == spec_size_hints(*p),
{
    let q = match p {
        Some(q) => q,
        None => {
            return None;
        },
    };
    if q.format != 32 || q.len < 4 || q.words.len() == 0 {
        return None;
    }
    let v = &q.words;
    let (min_width, min_height) = pair_of(v, 16, 5);
    let (max_width, max_height) = pair_of(v, 32, 7);
    let (width_inc, height_inc) = pair_of(v, 64, 9);
    let (base_width, base_height) = pair_of(v, 256, 15);
    Some(SizeHints { min_width, min_height, max_width, max_height, base_width, base_height, width_inc, height_inc })
}

/// A strut from a 32-bit property of at least sixteen bytes: its first four
/// items.
pub open spec fn strut_of(p: Option<Property>) -> Option<Strut> {
    match p {
        Some(q) => if q.format == 32 && q.len >= 16 && q.words@.len() >= 4 {
            Some(Strut { left: q.words@[0], right: q.words@[1], top: q.words@[2], bottom: q.words@[3] })
        } else {
            None
        },
        None => None,
    }
}

fn read_strut(p: &Option<Property>) -> (s: Option<Strut>)
    ensures
        s == strut_of(*p),
{
    match p {
        Some(q) => {
            if q.format == 32 && q.len >= 16 && q.words.len() >= 4 {
                Some(Strut { left: q.words[0], right: q.words[1], top: q.words[2], bottom: q.words[3] })
            } else {
                None
            }
        },
        None => None,
    }
}

/// The strut a dock reserves: from `_NET_WM_STRUT_PARTIAL` when it gives
/// one, else from `_NET_WM_STRUT`.
pub fn get_strut(partial: &Option<Property>, plain: &Option<Property>) -> (s: Option<Strut>)
    ensures
        s == (match strut_of(*partial) {
            Some(x) => Some(x),
            None => strut_of(*plain),
        }),
{
    match read_strut(partial) {
        Some(x) => Some(x),
        None => read_strut(plain),
    }
}

/// The first index from `i` on whose byte is not NUL (or the end).
pub open spec fn skip_nul(s: Seq<u8>, i: int) -> int
    decreases s.len() - i,
{
    if i >= s.len() || s[i] != 0 { i } else { skip_nul(s, i + 1) }
}

/// The first index from `i` on whose byte is NUL (or the end).
pub open spec fn skip_field(s: Seq<u8>, i: int) -> int
    decreases s.len() - i,
{
    if i >= s.len() || s[i] == 0 { i } else { skip_field(s, i + 1) }
}

/// The first two non-empty NUL-separated fields of `WM_CLASS`: the
/// instance and the class.
pub open spec fn class_fields(s: Seq<u8>) -> Option<(Seq<u8>, Seq<u8>)> {
    let a = skip_nul(s, 0);
    let b = skip_field(s, a);
    let c = skip_nul(s, b);
    let d = skip_field(s, c);
    if a < s.len() && c < s.len() { Some((s.subrange(a, b), s.subrange(c, d))) } else { None }
}

proof fn lemma_skip_bounds(s: Seq<u8>, i: int)
    requires
        0 <= i <= s.len(),
    ensures
        i <= skip_nul(s, i) <= s.len(),
        i <= skip_field(s, i) <= s.len(),
    decreases s.len() - i,
{
    if i < s.len() {
        lemma_skip_bounds(s, i + 1);
    }
}

fn skip_nul_from(s: &[u8], i: usize) -> (r: usize)
    requires
        i <= s@.len(),
    ensures
        r == skip_nul(s@, i as int),
{
    let mut k = i;
    while k < s.len() && s[k] == 0
        invariant
            i <= k <= s@.len(),
            skip_nul(s@, i as int) == skip_nul(s@, k as int),
        decreases s@.len() - k,
    {
        k = k + 1;
    }
    k
}

fn skip_field_from(s: &[u8], i: usize) -> (r: usize)
    requires
        i <= s@.len(),
    ensures
        r == skip_field(s@, i as int),
{
    let mut k = i;
    while k < s.len() && s[k] != 0
        invariant
            i <= k <= s@.len(),
            skip_field(s@, i as int) == skip_field(s@, k as int),
        decreases s@.len() - k,
    {
        k = k + 1;
    }
    k
}

fn slice_vec(s: &[u8], a: usize, b: usize) -> (v: Vec<u8>)
    requires
        a <= b <= s@.len(),
    ensures
        v@ == s@.subrange(a as int, b as int),
{
    let mut v: Vec<u8> = Vec::new();
    let mut k = a;
    while k < b
        invariant
            a <= k <= b <= s@.len(),
            v@ == s@.subrange(a as int, k as int),
        decreases b - k,
    {
        v.push(s[k]);
        assert(v@ =~= s@.subrange(a as int, k + 1));
        k = k + 1;
    }
    v
}

fn utf8_string(bytes: &Vec<u8>) -> (r: Option<String>)
    ensures
        r is Some <==> valid_utf8(bytes@),
        r matches Some(s) ==> encode_utf8(s@) == bytes@,
{
    match crate::ipc::i3_compat::str_from_utf8(bytes.as_slice()) {
        Ok(s) => Some(s.to_owned()),
        Err(_) => None,
    }
}

/// `WM_CLASS` read from its 8-bit value: the instance and the class (see
/// `class_fields`), each valid UTF-8; nothing when the format is not 8, a
/// field is missing or is not UTF-8.
pub fn get_wm_class(format: u8, value: &[u8]) -> (r: Option<(String, String)>)
    ensures
        r is Some <==> (format == 8 && class_fields(value@) is Some
            && valid_utf8((class_fields(value@)->0).0) && valid_utf8((class_fields(value@)->0).1)),
        r matches Some((i, c)) ==> (class_fields(value@) is Some && encode_utf8(i@) == (class_fields(value@)->0).0
            && encode_utf8(c@) == (class_fields(value@)->0).1),
{
    if format != 8 {
        return None;
    }
    proof {
        lemma_skip_bounds(value@, 0);
    }
    let a = skip_nul_from(value, 0);
    proof {
        lemma_skip_bounds(value@, a as int);
    }
    let b = skip_field_from(value, a);
    proof {
        lemma_skip_bounds(value@, b as int);
    }
    let c = skip_nul_from(value, b);
    proof {
        lemma_skip_bounds(value@, c as int);
    }
    let d = skip_field_from(value, c);
    if a >= value.len() || c >= value.len() {
        return None;
    }
    let instance = slice_vec(value, a, b);
    let class = slice_vec(value, c, d);
    let i = match utf8_string(&instance) {
        Some(s) => s,
        None => {
            return None;
        },
    };
    let k = match utf8_string(&class) {
        Some(s) => s,
        None => {
            return None;
        },
    };
    Some((i, k))
}

/// The value of `_NET_DESKTOP_NAMES`: each name's UTF-8 bytes followed by
/// a NUL.
pub open spec fn desktop_names_bytes(names: Seq<Seq<char>>) -> Seq<u8>
    decreases names.len(),
{
    if names.len() == 0 {
        Seq::empty()
    } else {
        desktop_names_bytes(names.drop_last()) + encode_utf8(names.last()) + seq![0u8]
    }
}

/// The bytes of `_NET_DESKTOP_NAMES` for the names (see
/// `desktop_names_bytes`).
pub fn desktop_names(names: &Vec<String>) -> (v: Vec<u8>)
    ensures
        v@ == desktop_names_bytes(names@.map_values(|s: String| s@)),
{
    let mut v: Vec<u8> = Vec::new();
    let mut i: usize = 0;
    let ghost all = names@.map_values(|s: String| s@);
    assert(all.subrange(0, 0) =~= Seq::<Seq<char>>::empty());
    while i < names.len()
        invariant
            i <= names@.len(),
            all == names@.map_values(|s: String| s@),
            v@ == desktop_names_bytes(all.subrange(0, i as int)),
        decreases names@.len() - i,
    {
        let b = names[i].as_str().as_bytes();
        let mut k: usize = 0;
        let ghost start = v@;
        while k < b.len()
            invariant
                k <= b@.len(),
                v@ == start + b@.subrange(0, k as int),
            decreases b@.len() - k,
        {
            v.push(b[k]);
            assert(v@ =~= start + b@.subrange(0, k + 1));
            k = k + 1;
        }
        v.push(0);
        proof {
            let q = all.subrange(0, i + 1);
            assert(q.drop_last() =~= all.subrange(0, i as int));
            assert(q.last() == names@[i as int]@);
            assert(b@.subrange(0, b@.len() as int) =~= b@);
            assert(v@ =~= desktop_names_bytes(q));
        }
        i = i + 1;
    }
    assert(all.subrange(0, names@.len() as int) =~= all);
    v
}

/// The keyboard mapping: for each keycode from `min_keycode` to
/// `max_keycode`, `keysyms_per_keycode` keysyms in a row.
#[derive(Debug, Clone)]
pub struct KeyboardMapping {
    pub min_keycode: u8,
    pub max_keycode: u8,
    pub keysyms_per_keycode: u8,
    pub keysyms: Vec<u32>,
}

impl KeyboardMapping {
    /// The keycodes and the table agree in size.
    pub open spec fn wf(&self) -> bool {
        &&& self.min_keycode <= self.max_keycode
        &&& self.keysyms@.len() >= (self.max_keycode - self.min_keycode + 1) * self.keysyms_per_keycode
    }

    /// Row `r` (keycode `min_keycode + r`) holds `keysym`.
    pub open spec fn row_has(&self, r: int, keysym: u32) -> bool {
        exists|j: int| 0 <= j < self.keysyms_per_keycode && #[trigger] self.keysyms@[r * self.keysyms_per_keycode + j] == keysym
    }

    /// The first row from `r` on that holds `keysym`.
    pub open spec fn first_row(&self, r: int, keysym: u32) -> Option<int>
        decreases self.max_keycode - self.min_keycode + 1 - r,
    {
        if r < 0 || r > self.max_keycode - self.min_keycode {
            None
        } else if self.row_has(r, keysym) {
            Some(r)
        } else {
            self.first_row(r + 1, keysym)
        }
    }
}

fn row_has_keysym(m: &KeyboardMapping, r: usize, keysym: u32) -> (b: bool)
    requires
        m.wf(),
        r <= m.max_keycode - m.min_keycode,
    ensures
        b == m.row_has(r as int, keysym),
{
    let per = m.keysyms_per_keycode as usize;
    let mut j: usize = 0;
    let ghost n = m.max_keycode - m.min_keycode + 1;
    assert(r * per + per <= n * per) by (nonlinear_arith)
        requires
            r <= n - 1,
            0 <= per,
    ;
    assert(n * per == (m.max_keycode - m.min_keycode + 1) * m.keysyms_per_keycode);
    let len = m.keysyms.len();
    assert(r * per <= len);
    let base = r * per;
    while j < per
        invariant
            per == m.keysyms_per_keycode,
            j <= per,
            base == r * per,
            len == m.keysyms@.len(),
            base + per <= len,
            forall|k: int| 0 <= k < j ==> #[trigger] m.keysyms@[r * per + k] != keysym,
        decreases per - j,
    {
        if m.keysyms[base + j] == keysym {
            return true;
        }
        j = j + 1;
    }
    false
}

/// The first keycode whose row of the mapping holds `keysym`.
pub fn keycode_from_keysym(m: &KeyboardMapping, keysym: u32) -> (c: Option<u8>)
    requires
        m.wf(),
    ensures
        c == (match m.first_row(0, keysym) {
            Some(r) => Some((m.min_keycode + r) as u8),
            None => None,
        }),
{
    let n = m.max_keycode as usize - m.min_keycode as usize + 1;
    let mut r: usize = 0;
    while r < n
        invariant
            n == m.max_keycode - m.min_keycode + 1,
            r <= n,
            m.wf(),
            m.first_row(0, keysym) == m.first_row(r as int, keysym),
        decreases n - r,
    {
        if row_has_keysym(m, r, keysym) {
            return Some(m.min_keycode + r as u8);
        }
        r = r + 1;
    }
    None
}

/// Where a monitor at `x` goes among monitors already in order by their
/// left edge: after every one not right of it.
pub open spec fn insert_pos(s: Seq<Monitor>, x: i16) -> int
    decreases s.len(),
{
    if s.len() == 0 {
        0
    } else if s.last().geometry.x <= x {
        s.len() as int
    } else {
        insert_pos(s.drop_last(), x)
    }
}

/// The monitors in order by their left edge, those at the same position in
/// the order they came (a stable sort).
pub open spec fn by_position(s: Seq<Monitor>) -> Seq<Monitor>
    decreases s.len(),
{
    if s.len() == 0 {
        s
    } else {
        let rest = by_position(s.drop_last());
        rest.insert(insert_pos(rest, s.last().geometry.x), s.last())
    }
}

proof fn lemma_insert_pos_bound(s: Seq<Monitor>, x: i16)
    ensures
        0 <= insert_pos(s, x) <= s.len(),
    decreases s.len(),
{
    if s.len() > 0 {
        lemma_insert_pos_bound(s.drop_last(), x);
    }
}

proof fn lemma_by_position_len(s: Seq<Monitor>)
    ensures
        by_position(s).len() == s.len(),
    decreases s.len(),
{
    if s.len() > 0 {
        lemma_by_position_len(s.drop_last());
        lemma_insert_pos_bound(by_position(s.drop_last()), s.last().geometry.x);
    }
}

fn find_insert_pos(v: &Vec<Monitor>, x: i16) -> (p: usize)
    ensures
        p == insert_pos(v@, x),
{
    let mut k = v.len();
    assert(v@.subrange(0, k as int) =~= v@);
    while k > 0 && v[k - 1].geometry.x > x
        invariant
            k <= v@.len(),
            insert_pos(v@, x) == insert_pos(v@.subrange(0, k as int), x),
        decreases k,
    {
        let ghost q = v@.subrange(0, k as int);
        assert(q.drop_last() =~= v@.subrange(0, k - 1));
        k = k - 1;
    }
    proof {
        let q = v@.subrange(0, k as int);
        if k > 0 {
            assert(q.last() == v@[k - 1]);
        }
    }
    k
}

/// Put the monitors in order by their left edge (see `by_position`).
pub fn order_monitors(monitors: Vec<Monitor>) -> (v: Vec<Monitor>)
    ensures
        v@ == by_position(monitors@),
{
    let mut rest = monitors;
    let total = rest.len();
    let ghost all = rest@;
    let mut out: Vec<Monitor> = Vec::new();
    let mut i: usize = 0;
    assert(all.subrange(0, 0) =~= Seq::<Monitor>::empty());
    assert(all.subrange(0, all.len() as int) =~= all);
    while rest.len() > 0
        invariant
            i <= all.len(),
            total == all.len(),
            rest@.len() == all.len() - i,
            rest@ == all.subrange(i as int, all.len() as int),
            out@ == by_position(all.subrange(0, i as int)),
        decreases rest@.len(),
    {
        let m = rest.remove(0);
        let ghost q = all.subrange(0, i + 1);
        assert(q.drop_last() =~= all.subrange(0, i as int));
        assert(q.last() == m);
        assert(rest@ =~= all.subrange(i + 1, all.len() as int));
        let p = find_insert_pos(&out, m.geometry.x);
        proof {
            lemma_insert_pos_bound(out@, m.geometry.x);
        }
        out.insert(p, m);
        i = i + 1;
    }
    assert(all.subrange(0, i as int) =~= all);
    out
}


/// A window whose `_NET_WM_WINDOW_TYPE` (an `ATOM` list of 32-bit items)
/// names a dialog, utility, toolbar, splash screen or notification floats.
pub proof fn law_floating_window_types(transient_for: Option<Property>, window_type: Property, state: Option<Property>, a: TypeAtoms, i: int)
    requires
        window_type.kind == ATOM_TYPE,
        window_type.format == 32,
        0 <= i < window_type.words@.len(),
        window_type.words@[i] == a.dialog || window_type.words@[i] == a.utility
            || window_type.words@[i] == a.toolbar || window_type.words@[i] == a.splash
            || window_type.words@[i] == a.notification,
    ensures
        spec_should_float(transient_for, Some(window_type), state, a),
{
    let types = seq![a.dialog, a.utility, a.toolbar, a.splash, a.notification];
    let w = window_type.words@[i];
    let j: int = if w == a.dialog { 0 } else if w == a.utility { 1 } else if w == a.toolbar { 2 } else if w == a.splash { 3 } else { 4 };
    assert(window_type.words@[i] == types[j]);
}

/// A window with no transient owner, no `_NET_WM_STATE` and a window type
/// naming none of those kinds is tiled.
pub proof fn law_other_windows_tile(window_type: Option<Property>, a: TypeAtoms)
    requires
        forall|i: int| 0 <= i < window_type->0.words@.len() ==> {
            let w = #[trigger] window_type->0.words@[i];
            w != a.dialog && w != a.utility && w != a.toolbar && w != a.splash && w != a.notification
        },
    ensures
        !spec_should_float(None, window_type, None, a),
{
    let types = seq![a.dialog, a.utility, a.toolbar, a.splash, a.notification];
    if let Some(p) = window_type {
        assert forall|i: int, j: int| 0 <= i < p.words@.len() && 0 <= j < types.len() implies #[trigger] p.words@[i] != #[trigger] types[j] by {
            assert(p.words@[i] == window_type->0.words@[i]);
        }
    }
}

} // verus!
