//! Key bindings: key specifications such as `mod+shift+q`, colors such as
//! `#5294e2`, and the actions a binding triggers.
use vstd::prelude::*;
use crate::text::{chars_are, chars_of, lowercase, split_chars, split_on, to_lowercase};

verus! {

/// The Shift modifier bit.
pub const MOD_SHIFT: u16 = 1;
/// The Control modifier bit.
pub const MOD_CONTROL: u16 = 4;
/// The Mod1 (Alt) modifier bit.
pub const MOD_ALT: u16 = 8;
/// The Mod4 (Super) modifier bit.
pub const MOD_SUPER: u16 = 64;

/// `s` without its leading `#` characters.
pub open spec fn trim_hashes(s: Seq<char>) -> Seq<char>
    decreases s.len(),
{
    if s.len() > 0 && s[0] == '#' {
        trim_hashes(s.drop_first())
    } else {
        s
    }
}

/// The value of a hexadecimal digit, either case.
pub open spec fn hex_digit(c: char) -> Option<u32> {
    let u = c as u32;
    if 48 <= u <= 57 {
        Some((u - 48) as u32)
    } else if 97 <= u <= 102 {
        Some((u - 87) as u32)
    } else if 65 <= u <= 70 {
        Some((u - 55) as u32)
    } else {
        None
    }
}

pub open spec fn all_hex(d: Seq<char>) -> bool {
    forall|i: int| 0 <= i < d.len() ==> #[trigger] hex_digit(d[i]) is Some
}

/// The number the hexadecimal digits `d` spell.
pub open spec fn hex_value(d: Seq<char>) -> int
    decreases d.len(),
{
    if d.len() == 0 {
        0
    } else {
        hex_value(d.drop_last()) * 16 + hex_digit(d.last())->0
    }
}

/// A `u32` written in hexadecimal, as `u32::from_str_radix(s, 16)` reads
/// it: an optional `+`, then at least one digit, the value within range.
pub open spec fn parse_hex_u32(s: Seq<char>) -> Option<u32> {
    let d = if s.len() > 0 && s[0] == '+' {
        s.drop_first()
    } else {
        s
    };
    if d.len() > 0 && all_hex(d) && hex_value(d) <= u32::MAX {
        Some(hex_value(d) as u32)
    } else {
        None
    }
}

/// A color such as `#5294e2`: any leading `#`s, then a hexadecimal `u32`.
pub open spec fn spec_parse_color(s: Seq<char>) -> Option<u32> {
    parse_hex_u32(trim_hashes(s))
}

fn hex_digit_of(c: char) -> (r: Option<u32>)
    ensures
        r == hex_digit(c),
{
    let u = c as u32;
    if 48 <= u && u <= 57 {
        Some(u - 48)
    } else if 97 <= u && u <= 102 {
        Some(u - 87)
    } else if 65 <= u && u <= 70 {
        Some(u - 55)
    } else {
        None
    }
}

proof fn lemma_hex_value_nonneg(d: Seq<char>)
    ensures
        hex_value(d) >= 0,
    decreases d.len(),
{
    if d.len() > 0 {
        lemma_hex_value_nonneg(d.drop_last());
    }
}

proof fn lemma_hex_value_monotone(d: Seq<char>, j: int)
    requires
        all_hex(d),
        0 <= j <= d.len(),
    ensures
        hex_value(d) >= hex_value(d.subrange(0, j)),
    decreases d.len(),
{
    if j < d.len() {
        assert(d.drop_last() =~= d.subrange(0, d.len() - 1));
        assert(d.subrange(0, d.len() - 1).subrange(0, j) =~= d.subrange(0, j));
        assert(all_hex(d.drop_last())) by {
            assert forall|i: int| 0 <= i < d.drop_last().len() implies #[trigger] hex_digit(
                d.drop_last()[i],
            ) is Some by {
                assert(d.drop_last()[i] == d[i]);
            }
        }
        lemma_hex_value_monotone(d.drop_last(), j);
        lemma_hex_value_nonneg(d.drop_last());
        assert(hex_digit(d[d.len() - 1]) is Some);
    } else {
        assert(d.subrange(0, j) =~= d);
    }
}

fn parse_hex_digits(d: &[char], start: usize) -> (r: Option<u32>)
    requires
        start <= d@.len(),
    ensures
        ({
            let s = d@.subrange(start as int, d@.len() as int);
            r == (if s.len() > 0 && all_hex(s) && hex_value(s) <= u32::MAX {
                Some(hex_value(s) as u32)
            } else {
                None::<u32>
            })
        }),
{
    let ghost s = d@.subrange(start as int, d@.len() as int);
    if start == d.len() {
        return None;
    }
    let mut acc: u64 = 0;
    let mut i: usize = start;
    while i < d.len()
        invariant
            start <= i <= d@.len(),
            s == d@.subrange(start as int, d@.len() as int),
            all_hex(s.subrange(0, i - start)),
            acc == hex_value(s.subrange(0, i - start)),
            acc <= u32::MAX,
        decreases d@.len() - i,
    {
        let ghost p = s.subrange(0, i - start);
        let ghost q = s.subrange(0, i + 1 - start);
        assert(q.drop_last() =~= p);
        assert(q.last() == d@[i as int]);
        match hex_digit_of(d[i]) {
            None => {
                assert(s[i - start] == d@[i as int]);
                assert(hex_digit(s[i - start]) is None);
                return None;
            },
            Some(v) => {
                let next: u64 = acc * 16 + v as u64;
                assert(all_hex(q)) by {
                    assert forall|k: int| 0 <= k < q.len() implies #[trigger] hex_digit(q[k]) is Some by {
                        if k < p.len() {
                            assert(q[k] == p[k]);
                        }
                    }
                }
                if next > 0xffff_ffff {
                    proof {
                        if all_hex(s) {
                            lemma_hex_value_monotone(s, i + 1 - start);
                        }
                    }
                    return None;
                }
                acc = next;
            },
        }
        i = i + 1;
    }
    assert(s.subrange(0, d@.len() - start) =~= s);
    Some(acc as u32)
}

/// Read a color such as `#5294e2`.
pub fn parse_color(s: &str) -> (r: Option<u32>)
    ensures
        r == spec_parse_color(s@),
{
    let cs = chars_of(s);
    let mut i: usize = 0;
    assert(cs@.subrange(0, cs@.len() as int) =~= cs@);
    while i < cs.len() && cs[i] == '#'
        invariant
            i <= cs@.len(),
            trim_hashes(cs@) == trim_hashes(cs@.subrange(i as int, cs@.len() as int)),
        decreases cs@.len() - i,
    {
        let ghost t = cs@.subrange(i as int, cs@.len() as int);
        assert(t.drop_first() =~= cs@.subrange(i + 1, cs@.len() as int));
        i = i + 1;
    }
    let ghost t = cs@.subrange(i as int, cs@.len() as int);
    assert(trim_hashes(t) == t);
    if i < cs.len() && cs[i] == '+' {
        assert(t.drop_first() =~= cs@.subrange(i + 1, cs@.len() as int));
        parse_hex_digits(cs.as_slice(), i + 1)
    } else {
        parse_hex_digits(cs.as_slice(), i)
    }
}

/// What pressing `+`-separated modifier word `p` adds, if it is one.
pub open spec fn modifier_bit(p: Seq<char>) -> Option<u16> {
    if p == "mod"@ || p == "super"@ || p == "mod4"@ {
        Some(MOD_SUPER)
    } else if p == "alt"@ || p == "mod1"@ {
        Some(MOD_ALT)
    } else if p == "shift"@ {
        Some(MOD_SHIFT)
    } else if p == "ctrl"@ || p == "control"@ {
        Some(MOD_CONTROL)
    } else {
        None
    }
}

/// The modifiers of `parts` and the last part that is not a modifier.
pub open spec fn fold_keyspec(parts: Seq<Seq<char>>) -> (u16, Option<Seq<char>>)
    decreases parts.len(),
{
    if parts.len() == 0 {
        (0u16, None)
    } else {
        let (m, k) = fold_keyspec(parts.drop_last());
        match modifier_bit(parts.last()) {
            Some(b) => (m | b, k),
            None => (m, Some(parts.last())),
        }
    }
}

/// The keysym a key name stands for.
pub open spec fn spec_keysym(k: Seq<char>) -> Option<u32> {
    if k == "return"@ || k == "enter"@ { Some(0xff0d) }
    else if k == "escape"@ || k == "esc"@ { Some(0xff1b) }
    else if k == "tab"@ { Some(0xff09) }
    else if k == "space"@ { Some(0x20) }
    else if k == "backspace"@ { Some(0xff08) }
    else if k == "delete"@ { Some(0xffff) }
    else if k == "left"@ { Some(0xff51) }
    else if k == "up"@ { Some(0xff52) }
    else if k == "right"@ { Some(0xff53) }
    else if k == "down"@ { Some(0xff54) }
    else if k == "home"@ { Some(0xff50) }
    else if k == "end"@ { Some(0xff57) }
    else if k == "page_up"@ || k == "pageup"@ { Some(0xff55) }
    else if k == "page_down"@ || k == "pagedown"@ { Some(0xff56) }
    else if k == "f1"@ { Some(0xffbe) }
    else if k == "f2"@ { Some(0xffbf) }
    else if k == "f3"@ { Some(0xffc0) }
    else if k == "f4"@ { Some(0xffc1) }
    else if k == "f5"@ { Some(0xffc2) }
    else if k == "f6"@ { Some(0xffc3) }
    else if k == "f7"@ { Some(0xffc4) }
    else if k == "f8"@ { Some(0xffc5) }
    else if k == "f9"@ { Some(0xffc6) }
    else if k == "f10"@ { Some(0xffc7) }
    else if k == "f11"@ { Some(0xffc8) }
    else if k == "f12"@ { Some(0xffc9) }
    else if k == "comma"@ { Some(0x2c) }
    else if k == "period"@ { Some(0x2e) }
    else if k == "semicolon"@ { Some(0x3b) }
    else if k == "apostrophe"@ { Some(0x27) }
    else if k == "bracketleft"@ { Some(0x5b) }
    else if k == "bracketright"@ { Some(0x5d) }
    else if k == "backslash"@ { Some(0x5c) }
    else if k == "slash"@ { Some(0x2f) }
    else if k == "minus"@ { Some(0x2d) }
    else if k == "equal"@ { Some(0x3d) }
    else if k == "grave"@ { Some(0x60) }
    else if k == "0"@ { Some(0x30) }
    else if k == "1"@ { Some(0x31) }
    else if k == "2"@ { Some(0x32) }
    else if k == "3"@ { Some(0x33) }
    else if k == "4"@ { Some(0x34) }
    else if k == "5"@ { Some(0x35) }
    else if k == "6"@ { Some(0x36) }
    else if k == "7"@ { Some(0x37) }
    else if k == "8"@ { Some(0x38) }
    else if k == "9"@ { Some(0x39) }
    else if k.len() == 1 && 97 <= (k[0] as u32) <= 122 { Some(k[0] as u32) }
    else { None }
}

/// A key specification already in lower case, such as `mod+shift+q`: the
/// modifiers it names and the keysym of its last other part.
pub open spec fn lower_keyspec(lower: Seq<char>) -> Option<(u16, u32)> {
    let (m, k) = fold_keyspec(split_on(lower, '+'));
    match k {
        None => None,
        Some(key) => match spec_keysym(key) {
            Some(sym) => Some((m, sym)),
            None => None,
        },
    }
}

/// A key specification such as `mod+shift+q`, read case-insensitively.
pub open spec fn spec_parse_keyspec(spec: Seq<char>) -> Option<(u16, u32)> {
    lower_keyspec(lowercase(spec))
}

fn modifier_of(p: &[char]) -> (r: Option<u16>)
    ensures
        r == modifier_bit(p@),
{
    if chars_are(p, "mod") || chars_are(p, "super") || chars_are(p, "mod4") {
        Some(MOD_SUPER)
    } else if chars_are(p, "alt") || chars_are(p, "mod1") {
        Some(MOD_ALT)
    } else if chars_are(p, "shift") {
        Some(MOD_SHIFT)
    } else if chars_are(p, "ctrl") || chars_are(p, "control") {
        Some(MOD_CONTROL)
    } else {
        None
    }
}

fn keysym_of(k: &[char]) -> (r: Option<u32>)
    ensures
        r == spec_keysym(k@),
{
    if chars_are(k, "return") || chars_are(k, "enter") { Some(0xff0d) }
    else if chars_are(k, "escape") || chars_are(k, "esc") { Some(0xff1b) }
    else if chars_are(k, "tab") { Some(0xff09) }
    else if chars_are(k, "space") { Some(0x20) }
    else if chars_are(k, "backspace") { Some(0xff08) }
    else if chars_are(k, "delete") { Some(0xffff) }
    else if chars_are(k, "left") { Some(0xff51) }
    else if chars_are(k, "up") { Some(0xff52) }
    else if chars_are(k, "right") { Some(0xff53) }
    else if chars_are(k, "down") { Some(0xff54) }
    else if chars_are(k, "home") { Some(0xff50) }
    else if chars_are(k, "end") { Some(0xff57) }
    else if chars_are(k, "page_up") || chars_are(k, "pageup") { Some(0xff55) }
    else if chars_are(k, "page_down") || chars_are(k, "pagedown") { Some(0xff56) }
    else if chars_are(k, "f1") { Some(0xffbe) }
    else if chars_are(k, "f2") { Some(0xffbf) }
    else if chars_are(k, "f3") { Some(0xffc0) }
    else if chars_are(k, "f4") { Some(0xffc1) }
    else if chars_are(k, "f5") { Some(0xffc2) }
    else if chars_are(k, "f6") { Some(0xffc3) }
    else if chars_are(k, "f7") { Some(0xffc4) }
    else if chars_are(k, "f8") { Some(0xffc5) }
    else if chars_are(k, "f9") { Some(0xffc6) }
    else if chars_are(k, "f10") { Some(0xffc7) }
    else if chars_are(k, "f11") { Some(0xffc8) }
    else if chars_are(k, "f12") { Some(0xffc9) }
    else if chars_are(k, "comma") { Some(0x2c) }
    else if chars_are(k, "period") { Some(0x2e) }
    else if chars_are(k, "semicolon") { Some(0x3b) }
    else if chars_are(k, "apostrophe") { Some(0x27) }
    else if chars_are(k, "bracketleft") { Some(0x5b) }
    else if chars_are(k, "bracketright") { Some(0x5d) }
    else if chars_are(k, "backslash") { Some(0x5c) }
    else if chars_are(k, "slash") { Some(0x2f) }
    else if chars_are(k, "minus") { Some(0x2d) }
    else if chars_are(k, "equal") { Some(0x3d) }
    else if chars_are(k, "grave") { Some(0x60) }
    else if chars_are(k, "0") { Some(0x30) }
    else if chars_are(k, "1") { Some(0x31) }
    else if chars_are(k, "2") { Some(0x32) }
    else if chars_are(k, "3") { Some(0x33) }
    else if chars_are(k, "4") { Some(0x34) }
    else if chars_are(k, "5") { Some(0x35) }
    else if chars_are(k, "6") { Some(0x36) }
    else if chars_are(k, "7") { Some(0x37) }
    else if chars_are(k, "8") { Some(0x38) }
    else if chars_are(k, "9") { Some(0x39) }
    else if k.len() == 1 && 97 <= (k[0] as u32) && (k[0] as u32) <= 122 { Some(k[0] as u32) }
    else { None }
}

/// Read a key specification such as `mod+shift+q`.
pub fn parse_keyspec(spec: &str) -> (r: Option<(u16, u32)>)
    ensures
        r == spec_parse_keyspec(spec@),
{
    let lower = to_lowercase(spec);
    let cs = chars_of(lower.as_str());
    parse_lower_keyspec(cs.as_slice())
}

/// Read a key specification already in lower case.
pub fn parse_lower_keyspec(lower: &[char]) -> (r: Option<(u16, u32)>)
    ensures
        r == lower_keyspec(lower@),
{
    let parts = split_chars(lower, '+');
    let ghost ps = split_on(lower@, '+');
    let mut modifiers: u16 = 0;
    let mut key_part: Option<usize> = None;
    let mut i: usize = 0;
    while i < parts.len()
        invariant
            i <= parts@.len(),
            parts@.len() == ps.len(),
            forall|j: int| 0 <= j < parts@.len() ==> #[trigger] parts@[j]@ == ps[j],
            modifiers == fold_keyspec(ps.subrange(0, i as int)).0,
            match key_part {
                None => fold_keyspec(ps.subrange(0, i as int)).1 is None,
                Some(k) => k < i && fold_keyspec(ps.subrange(0, i as int)).1 == Some(parts@[k as int]@),
            },
        decreases parts@.len() - i,
    {
        let ghost q = ps.subrange(0, i + 1);
        assert(q.drop_last() =~= ps.subrange(0, i as int));
        assert(q.last() == parts@[i as int]@);
        match modifier_of(parts[i].as_slice()) {
            Some(b) => {
                modifiers = modifiers | b;
            },
            None => {
                key_part = Some(i);
            },
        }
        i = i + 1;
    }
    assert(ps.subrange(0, ps.len() as int) =~= ps);
    match key_part {
        None => None,
        Some(k) => match keysym_of(parts[k].as_slice()) {
            Some(sym) => Some((modifiers, sym)),
            None => None,
        },
    }
}

/// What a key binding does.
#[derive(Debug, Clone)]
pub enum Action {
    Exec(String),
    Focus(String),
    Swap(String),
    /// A direction and an amount in units of `1 / RATIO_SCALE`.
    Resize(String, i32),
    CloseWindow,
    ForceCloseWindow,
    Workspace(usize),
    WorkspaceNext,
    WorkspacePrev,
    MoveToWorkspace(usize),
    Equalize,
    Reload,
    Exit,
    ToggleFloating,
    ToggleFullscreen,
    CycleFloating,
    FocusMonitor(String),
    MoveToMonitor(String),
    LuaCallback(usize),
}

/// A registered key binding.
#[derive(Debug, Clone)]
pub struct Keybind {
    pub modifiers: u16,
    pub keysym: u32,
    pub action: Action,
}


/// The X keysyms of the key names, as the X protocol's keysym table
/// (`keysymdef.h`) defines them: `XK_Return`, `XK_Escape`, `XK_Tab`,
/// `XK_space`, `XK_BackSpace`, `XK_Delete`, the cursor keys `XK_Left`,
/// `XK_Up`, `XK_Right`, `XK_Down`, `XK_Home`, `XK_End`, `XK_Prior`,
/// `XK_Next`, the function keys `XK_F1` to `XK_F12`, and the punctuation
/// and digit keys, whose keysyms are their Latin-1 codes.
pub open spec fn x_keysym_table() -> Seq<(Seq<char>, u32)> {
    seq![
        ("return"@, 0xff0du32),
        ("enter"@, 0xff0du32),
        ("escape"@, 0xff1bu32),
        ("esc"@, 0xff1bu32),
        ("tab"@, 0xff09u32),
        ("space"@, 0x20u32),
        ("backspace"@, 0xff08u32),
        ("delete"@, 0xffffu32),
        ("left"@, 0xff51u32),
        ("up"@, 0xff52u32),
        ("right"@, 0xff53u32),
        ("down"@, 0xff54u32),
        ("home"@, 0xff50u32),
        ("end"@, 0xff57u32),
        ("page_up"@, 0xff55u32),
        ("pageup"@, 0xff55u32),
        ("page_down"@, 0xff56u32),
        ("pagedown"@, 0xff56u32),
        ("f1"@, 0xffbeu32),
        ("f2"@, 0xffbfu32),
        ("f3"@, 0xffc0u32),
        ("f4"@, 0xffc1u32),
        ("f5"@, 0xffc2u32),
        ("f6"@, 0xffc3u32),
        ("f7"@, 0xffc4u32),
        ("f8"@, 0xffc5u32),
        ("f9"@, 0xffc6u32),
        ("f10"@, 0xffc7u32),
        ("f11"@, 0xffc8u32),
        ("f12"@, 0xffc9u32),
        ("comma"@, 0x2cu32),
        ("period"@, 0x2eu32),
        ("semicolon"@, 0x3bu32),
        ("apostrophe"@, 0x27u32),
        ("bracketleft"@, 0x5bu32),
        ("bracketright"@, 0x5du32),
        ("backslash"@, 0x5cu32),
        ("slash"@, 0x2fu32),
        ("minus"@, 0x2du32),
        ("equal"@, 0x3du32),
        ("grave"@, 0x60u32),
        ("0"@, 0x30u32),
        ("1"@, 0x31u32),
        ("2"@, 0x32u32),
        ("3"@, 0x33u32),
        ("4"@, 0x34u32),
        ("5"@, 0x35u32),
        ("6"@, 0x36u32),
        ("7"@, 0x37u32),
        ("8"@, 0x38u32),
        ("9"@, 0x39u32)
    ]
}

/// Every named key stands for its X keysym.
pub proof fn law_named_keysyms()
    ensures
        forall|i: int| 0 <= i < x_keysym_table().len() ==>
            spec_keysym(#[trigger] x_keysym_table()[i].0) == Some(x_keysym_table()[i].1),
{
    reveal_strlit("return");
    reveal_strlit("enter");
    reveal_strlit("escape");
    reveal_strlit("esc");
    reveal_strlit("tab");
    reveal_strlit("space");
    reveal_strlit("backspace");
    reveal_strlit("delete");
    reveal_strlit("left");
    reveal_strlit("up");
    reveal_strlit("right");
    reveal_strlit("down");
    reveal_strlit("home");
    reveal_strlit("end");
    reveal_strlit("page_up");
    reveal_strlit("pageup");
    reveal_strlit("page_down");
    reveal_strlit("pagedown");
    reveal_strlit("f1");
    reveal_strlit("f2");
    reveal_strlit("f3");
    reveal_strlit("f4");
    reveal_strlit("f5");
    reveal_strlit("f6");
    reveal_strlit("f7");
    reveal_strlit("f8");
    reveal_strlit("f9");
    reveal_strlit("f10");
    reveal_strlit("f11");
    reveal_strlit("f12");
    reveal_strlit("comma");
    reveal_strlit("period");
    reveal_strlit("semicolon");
    reveal_strlit("apostrophe");
    reveal_strlit("bracketleft");
    reveal_strlit("bracketright");
    reveal_strlit("backslash");
    reveal_strlit("slash");
    reveal_strlit("minus");
    reveal_strlit("equal");
    reveal_strlit("grave");
    reveal_strlit("0");
    reveal_strlit("1");
    reveal_strlit("2");
    reveal_strlit("3");
    reveal_strlit("4");
    reveal_strlit("5");
    reveal_strlit("6");
    reveal_strlit("7");
    reveal_strlit("8");
    reveal_strlit("9");
    let t = x_keysym_table();
    assert forall|i: int| 0 <= i < t.len() implies spec_keysym(#[trigger] t[i].0) == Some(t[i].1) by {
        if i == 0 { assert(t[i].0 == "return"@); }
        if i == 1 { assert(t[i].0 == "enter"@); }
        if i == 2 { assert(t[i].0 == "escape"@); assert("escape"@[0] != "return"@[0]); }
        if i == 3 { assert(t[i].0 == "esc"@); }
        if i == 4 { assert(t[i].0 == "tab"@); assert("tab"@[0] != "esc"@[0]); }
        if i == 5 { assert(t[i].0 == "space"@); assert("space"@[0] != "enter"@[0]); }
        if i == 6 { assert(t[i].0 == "backspace"@); }
        if i == 7 { assert(t[i].0 == "delete"@); assert("delete"@[0] != "return"@[0]); assert("delete"@[0] != "escape"@[0]); }
        if i == 8 { assert(t[i].0 == "left"@); }
        if i == 9 { assert(t[i].0 == "up"@); }
        if i == 10 { assert(t[i].0 == "right"@); assert("right"@[0] != "enter"@[0]); assert("right"@[0] != "space"@[0]); }
        if i == 11 { assert(t[i].0 == "down"@); assert("down"@[0] != "left"@[0]); }
        if i == 12 { assert(t[i].0 == "home"@); assert("home"@[0] != "left"@[0]); assert("home"@[0] != "down"@[0]); }
        if i == 13 { assert(t[i].0 == "end"@); assert("end"@[1] != "esc"@[1]); assert("end"@[0] != "tab"@[0]); }
        if i == 14 { assert(t[i].0 == "page_up"@); }
        if i == 15 { assert(t[i].0 == "pageup"@); assert("pageup"@[0] != "return"@[0]); assert("pageup"@[0] != "escape"@[0]); assert("pageup"@[0] != "delete"@[0]); }
        if i == 16 { assert(t[i].0 == "page_down"@); assert("page_down"@[0] != "backspace"@[0]); }
        if i == 17 { assert(t[i].0 == "pagedown"@); }
        if i == 18 { assert(t[i].0 == "f1"@); assert("f1"@[0] != "up"@[0]); }
        if i == 19 { assert(t[i].0 == "f2"@); assert("f2"@[0] != "up"@[0]); assert("f2"@[1] != "f1"@[1]); }
        if i == 20 { assert(t[i].0 == "f3"@); assert("f3"@[0] != "up"@[0]); assert("f3"@[1] != "f1"@[1]); assert("f3"@[1] != "f2"@[1]); }
        if i == 21 { assert(t[i].0 == "f4"@); assert("f4"@[0] != "up"@[0]); assert("f4"@[1] != "f1"@[1]); assert("f4"@[1] != "f2"@[1]); assert("f4"@[1] != "f3"@[1]); }
        if i == 22 { assert(t[i].0 == "f5"@); assert("f5"@[0] != "up"@[0]); assert("f5"@[1] != "f1"@[1]); assert("f5"@[1] != "f2"@[1]); assert("f5"@[1] != "f3"@[1]); assert("f5"@[1] != "f4"@[1]); }
        if i == 23 { assert(t[i].0 == "f6"@); assert("f6"@[0] != "up"@[0]); assert("f6"@[1] != "f1"@[1]); assert("f6"@[1] != "f2"@[1]); assert("f6"@[1] != "f3"@[1]); assert("f6"@[1] != "f4"@[1]); assert("f6"@[1] != "f5"@[1]); }
        if i == 24 { assert(t[i].0 == "f7"@); assert("f7"@[0] != "up"@[0]); assert("f7"@[1] != "f1"@[1]); assert("f7"@[1] != "f2"@[1]); assert("f7"@[1] != "f3"@[1]); assert("f7"@[1] != "f4"@[1]); assert("f7"@[1] != "f5"@[1]); assert("f7"@[1] != "f6"@[1]); }
        if i == 25 { assert(t[i].0 == "f8"@); assert("f8"@[0] != "up"@[0]); assert("f8"@[1] != "f1"@[1]); assert("f8"@[1] != "f2"@[1]); assert("f8"@[1] != "f3"@[1]); assert("f8"@[1] != "f4"@[1]); assert("f8"@[1] != "f5"@[1]); assert("f8"@[1] != "f6"@[1]); assert("f8"@[1] != "f7"@[1]); }
        if i == 26 { assert(t[i].0 == "f9"@); assert("f9"@[0] != "up"@[0]); assert("f9"@[1] != "f1"@[1]); assert("f9"@[1] != "f2"@[1]); assert("f9"@[1] != "f3"@[1]); assert("f9"@[1] != "f4"@[1]); assert("f9"@[1] != "f5"@[1]); assert("f9"@[1] != "f6"@[1]); assert("f9"@[1] != "f7"@[1]); assert("f9"@[1] != "f8"@[1]); }
        if i == 27 { assert(t[i].0 == "f10"@); assert("f10"@[0] != "esc"@[0]); assert("f10"@[0] != "tab"@[0]); assert("f10"@[0] != "end"@[0]); }
        if i == 28 { assert(t[i].0 == "f11"@); assert("f11"@[0] != "esc"@[0]); assert("f11"@[0] != "tab"@[0]); assert("f11"@[0] != "end"@[0]); assert("f11"@[2] != "f10"@[2]); }
        if i == 29 { assert(t[i].0 == "f12"@); assert("f12"@[0] != "esc"@[0]); assert("f12"@[0] != "tab"@[0]); assert("f12"@[0] != "end"@[0]); assert("f12"@[2] != "f10"@[2]); assert("f12"@[2] != "f11"@[2]); }
        if i == 30 { assert(t[i].0 == "comma"@); assert("comma"@[0] != "enter"@[0]); assert("comma"@[0] != "space"@[0]); assert("comma"@[0] != "right"@[0]); }
        if i == 31 { assert(t[i].0 == "period"@); assert("period"@[0] != "return"@[0]); assert("period"@[0] != "escape"@[0]); assert("period"@[0] != "delete"@[0]); assert("period"@[1] != "pageup"@[1]); }
        if i == 32 { assert(t[i].0 == "semicolon"@); assert("semicolon"@[0] != "backspace"@[0]); assert("semicolon"@[0] != "page_down"@[0]); }
        if i == 33 { assert(t[i].0 == "apostrophe"@); }
        if i == 34 { assert(t[i].0 == "bracketleft"@); }
        if i == 35 { assert(t[i].0 == "bracketright"@); }
        if i == 36 { assert(t[i].0 == "backslash"@); assert("backslash"@[5] != "backspace"@[5]); assert("backslash"@[0] != "page_down"@[0]); assert("backslash"@[0] != "semicolon"@[0]); }
        if i == 37 { assert(t[i].0 == "slash"@); assert("slash"@[0] != "enter"@[0]); assert("slash"@[1] != "space"@[1]); assert("slash"@[0] != "right"@[0]); assert("slash"@[0] != "comma"@[0]); }
        if i == 38 { assert(t[i].0 == "minus"@); assert("minus"@[0] != "enter"@[0]); assert("minus"@[0] != "space"@[0]); assert("minus"@[0] != "right"@[0]); assert("minus"@[0] != "comma"@[0]); assert("minus"@[0] != "slash"@[0]); }
        if i == 39 { assert(t[i].0 == "equal"@); assert("equal"@[1] != "enter"@[1]); assert("equal"@[0] != "space"@[0]); assert("equal"@[0] != "right"@[0]); assert("equal"@[0] != "comma"@[0]); assert("equal"@[0] != "slash"@[0]); assert("equal"@[0] != "minus"@[0]); }
        if i == 40 { assert(t[i].0 == "grave"@); assert("grave"@[0] != "enter"@[0]); assert("grave"@[0] != "space"@[0]); assert("grave"@[0] != "right"@[0]); assert("grave"@[0] != "comma"@[0]); assert("grave"@[0] != "slash"@[0]); assert("grave"@[0] != "minus"@[0]); assert("grave"@[0] != "equal"@[0]); }
        if i == 41 { assert(t[i].0 == "0"@); }
        if i == 42 { assert(t[i].0 == "1"@); assert("1"@[0] != "0"@[0]); }
        if i == 43 { assert(t[i].0 == "2"@); assert("2"@[0] != "0"@[0]); assert("2"@[0] != "1"@[0]); }
        if i == 44 { assert(t[i].0 == "3"@); assert("3"@[0] != "0"@[0]); assert("3"@[0] != "1"@[0]); assert("3"@[0] != "2"@[0]); }
        if i == 45 { assert(t[i].0 == "4"@); assert("4"@[0] != "0"@[0]); assert("4"@[0] != "1"@[0]); assert("4"@[0] != "2"@[0]); assert("4"@[0] != "3"@[0]); }
        if i == 46 { assert(t[i].0 == "5"@); assert("5"@[0] != "0"@[0]); assert("5"@[0] != "1"@[0]); assert("5"@[0] != "2"@[0]); assert("5"@[0] != "3"@[0]); assert("5"@[0] != "4"@[0]); }
        if i == 47 { assert(t[i].0 == "6"@); assert("6"@[0] != "0"@[0]); assert("6"@[0] != "1"@[0]); assert("6"@[0] != "2"@[0]); assert("6"@[0] != "3"@[0]); assert("6"@[0] != "4"@[0]); assert("6"@[0] != "5"@[0]); }
        if i == 48 { assert(t[i].0 == "7"@); assert("7"@[0] != "0"@[0]); assert("7"@[0] != "1"@[0]); assert("7"@[0] != "2"@[0]); assert("7"@[0] != "3"@[0]); assert("7"@[0] != "4"@[0]); assert("7"@[0] != "5"@[0]); assert("7"@[0] != "6"@[0]); }
        if i == 49 { assert(t[i].0 == "8"@); assert("8"@[0] != "0"@[0]); assert("8"@[0] != "1"@[0]); assert("8"@[0] != "2"@[0]); assert("8"@[0] != "3"@[0]); assert("8"@[0] != "4"@[0]); assert("8"@[0] != "5"@[0]); assert("8"@[0] != "6"@[0]); assert("8"@[0] != "7"@[0]); }
        if i == 50 { assert(t[i].0 == "9"@); assert("9"@[0] != "0"@[0]); assert("9"@[0] != "1"@[0]); assert("9"@[0] != "2"@[0]); assert("9"@[0] != "3"@[0]); assert("9"@[0] != "4"@[0]); assert("9"@[0] != "5"@[0]); assert("9"@[0] != "6"@[0]); assert("9"@[0] != "7"@[0]); assert("9"@[0] != "8"@[0]); }
    }
}

/// A single lower-case letter stands for its own keysym (`XK_a` to `XK_z`
/// are the Latin-1 codes of the letters).
pub proof fn law_letter_keysyms(c: char)
    requires
        'a' <= c <= 'z',
    ensures
        spec_keysym(seq![c]) == Some(c as u32),
{
    reveal_strlit("return");
    reveal_strlit("enter");
    reveal_strlit("escape");
    reveal_strlit("esc");
    reveal_strlit("tab");
    reveal_strlit("space");
    reveal_strlit("backspace");
    reveal_strlit("delete");
    reveal_strlit("left");
    reveal_strlit("up");
    reveal_strlit("right");
    reveal_strlit("down");
    reveal_strlit("home");
    reveal_strlit("end");
    reveal_strlit("page_up");
    reveal_strlit("pageup");
    reveal_strlit("page_down");
    reveal_strlit("pagedown");
    reveal_strlit("f1");
    reveal_strlit("f2");
    reveal_strlit("f3");
    reveal_strlit("f4");
    reveal_strlit("f5");
    reveal_strlit("f6");
    reveal_strlit("f7");
    reveal_strlit("f8");
    reveal_strlit("f9");
    reveal_strlit("f10");
    reveal_strlit("f11");
    reveal_strlit("f12");
    reveal_strlit("comma");
    reveal_strlit("period");
    reveal_strlit("semicolon");
    reveal_strlit("apostrophe");
    reveal_strlit("bracketleft");
    reveal_strlit("bracketright");
    reveal_strlit("backslash");
    reveal_strlit("slash");
    reveal_strlit("minus");
    reveal_strlit("equal");
    reveal_strlit("grave");
    reveal_strlit("0");
    reveal_strlit("1");
    reveal_strlit("2");
    reveal_strlit("3");
    reveal_strlit("4");
    reveal_strlit("5");
    reveal_strlit("6");
    reveal_strlit("7");
    reveal_strlit("8");
    reveal_strlit("9");
    assert(seq![c][0] != "0"@[0]);
    assert(seq![c][0] != "1"@[0]);
    assert(seq![c][0] != "2"@[0]);
    assert(seq![c][0] != "3"@[0]);
    assert(seq![c][0] != "4"@[0]);
    assert(seq![c][0] != "5"@[0]);
    assert(seq![c][0] != "6"@[0]);
    assert(seq![c][0] != "7"@[0]);
    assert(seq![c][0] != "8"@[0]);
    assert(seq![c][0] != "9"@[0]);
    assert(seq![c].len() == 1);
}

} // verus!
