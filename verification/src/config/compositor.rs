//! The compositor's configuration file (picom.conf), written from the
//! settings. The settings that are fractions come already written out
//! with two decimals, and paths with the home directory expanded.
use vstd::prelude::*;
use vstd::utf8::encode_utf8;
use crate::config::Config;
use crate::text::str_eq;

verus! {

/// A per-window compositor rule.
#[derive(Debug, Clone)]
pub struct PicomRuleText {
    /// The window the rule applies to, in picom's match syntax.
    pub match_expr: String,
    pub corner_radius: Option<u32>,
    /// The opacity, written out.
    pub opacity: Option<String>,
    pub shadow: Option<bool>,
    pub blur_background: Option<bool>,
    /// The shader file.
    pub shader: Option<String>,
}

/// The compositor settings that are not whole numbers, written out, and
/// the shader paths.
#[derive(Debug, Clone)]
pub struct CompositorText {
    pub shadow_opacity: String,
    /// Whether unfocused windows are dimmed (their opacity is below one).
    pub dim_unfocused: bool,
    pub opacity_focused: String,
    pub opacity_unfocused: String,
    pub animation_duration: String,
    /// Half the animation duration, for geometry changes.
    pub geometry_duration: String,
    /// The shader applied to every window.
    pub shader: Option<String>,
    pub rules: Vec<PicomRuleText>,
}

/// The decimal digits of `n`, in ASCII.
pub open spec fn digits(n: nat) -> Seq<u8>
    decreases n,
{
    if n < 10 {
        seq![(48 + n) as u8]
    } else {
        digits(n / 10) + seq![(48 + n % 10) as u8]
    }
}

/// `i` in decimal, with a minus sign when negative.
pub open spec fn signed_digits(i: int) -> Seq<u8> {
    if i < 0 {
        seq![45u8] + digits((-i) as nat)
    } else {
        digits(i as nat)
    }
}

/// The bytes of a string.
pub open spec fn bytes(s: Seq<char>) -> Seq<u8> {
    encode_utf8(s)
}

pub open spec fn bool_text(b: bool) -> Seq<u8> {
    if b { bytes("true"@) } else { bytes("false"@) }
}

pub const HEADER: &'static str = "# picom.conf - Auto-generated by gar window manager
# DO NOT EDIT MANUALLY - changes will be overwritten on reload
# Edit ~/.config/gar/init.lua instead and reload with Mod+Shift+R

# Backend Configuration
backend = \"glx\";
vsync = true;
use-ewmh-active-win = true;
glx-no-stencil = true;

# Rounded Corners
corner-radius = ";

pub const CORNERS_EXCLUDE: &'static str = ";

rounded-corners-exclude = [
    \"window_type = 'dock'\",
    \"window_type = 'desktop'\",
    \"window_type = 'tooltip'\",
    \"window_type = 'menu'\",
    \"window_type = 'dropdown_menu'\",
    \"window_type = 'popup_menu'\",
    \"_NET_WM_STATE *= '_NET_WM_STATE_FULLSCREEN'\"
];

";

pub const BLUR_METHOD: &'static str = "# Blur
blur-method = \"";

pub const BLUR_STRENGTH: &'static str = "\";
blur-strength = ";

pub const BLUR_REST: &'static str = ";
blur-background = true;
blur-background-frame = false;
blur-kern = \"3x3box\";

blur-background-exclude = [
    \"window_type = 'dock'\",
    \"window_type = 'desktop'\",
    \"window_type = 'menu'\",
    \"window_type = 'dropdown_menu'\",
    \"window_type = 'popup_menu'\",
    \"_NET_WM_BYPASS_COMPOSITOR = 1\"
];";

pub const BLUR_OFF: &'static str = "# Blur disabled";

pub const SHADOW_RADIUS: &'static str = "# Shadows
shadow = true;
shadow-radius = ";

pub const SHADOW_OPACITY: &'static str = ";
shadow-opacity = ";

pub const SHADOW_OFFSET_X: &'static str = ";
shadow-offset-x = ";

pub const SHADOW_OFFSET_Y: &'static str = ";
shadow-offset-y = ";

pub const SHADOW_REST: &'static str = ";

shadow-exclude = [
    \"window_type = 'dock'\",
    \"window_type = 'desktop'\",
    \"window_type = 'menu'\",
    \"window_type = 'dropdown_menu'\",
    \"window_type = 'popup_menu'\",
    \"window_type = 'tooltip'\",
    \"_NET_WM_STATE *= '_NET_WM_STATE_FULLSCREEN'\",
    \"_NET_WM_BYPASS_COMPOSITOR = 1\"
];";

pub const SHADOW_OFF: &'static str = "# Shadows disabled
shadow = false;";

pub const FADE_DELTA: &'static str = "# Fading / Animations
fading = true;
fade-in-step = 0.028;
fade-out-step = 0.03;
fade-delta = ";

pub const FADE_REST: &'static str = ";

no-fading-destroyed-argb = true;

fade-exclude = [
    \"window_type = 'menu'\",
    \"window_type = 'dropdown_menu'\",
    \"window_type = 'popup_menu'\"
];";

pub const FADE_OFF: &'static str = "# Fading disabled
fading = false;";

pub const ACTIVE_OPACITY: &'static str = "# Focus Opacity
active-opacity = ";

pub const INACTIVE_OPACITY: &'static str = ";
inactive-opacity = ";

pub const FRAME_OPACITY: &'static str = ";
frame-opacity = 1.0;";

pub const OPAQUE: &'static str = "# Focus opacity: all windows fully opaque";

pub const OPEN_PRESET: &'static str = "# Animations
animations = ({
    triggers = [\"open\", \"show\"];
    preset = \"";

pub const PRESET_DURATION: &'static str = "\";
    duration = ";

pub const CLOSE_PRESET: &'static str = ";
},
{
    triggers = [\"close\", \"hide\"];
    preset = \"";

pub const GEOMETRY_DURATION: &'static str = ";
},
{
    triggers = [\"geometry\"];
    preset = \"geometry-change\";
    duration = ";

pub const ANIMATIONS_END: &'static str = ";
});";

pub const ANIMATIONS_OFF: &'static str = "# Animations disabled";

pub const SHADER: &'static str = "# Custom Shader
window-shader-fg = \"";

pub const QUOTE_END: &'static str = "\";";

pub const NO_SHADER: &'static str = "# No custom shader";

pub const RULES_START: &'static str = "# Per-window Rules
rules = (
";

pub const RULE_MATCH: &'static str = "    {
        match = \"";

pub const RULE_MATCH_END: &'static str = "\";
";

pub const RULE_CORNER: &'static str = "        corner-radius = ";

pub const RULE_OPACITY: &'static str = "        opacity = ";

pub const RULE_SHADOW: &'static str = "        shadow = ";

pub const RULE_BLUR: &'static str = "        blur-background = ";

pub const RULE_SHADER: &'static str = "        shader = \"";

pub const RULE_SHADER_END: &'static str = "\";
";

pub const LINE_END: &'static str = ";
";

pub const RULE_END: &'static str = "    },
";

pub const RULES_END: &'static str = ");";

pub const NO_RULES: &'static str = "# No per-window rules";

pub const SECTION_BREAK: &'static str = "

";

pub const WINDOW_TYPES: &'static str = "

# Window Type Settings
wintypes:
{
    tooltip = {
        fade = true;
        shadow = false;
        opacity = 0.95;
        focus = true;
        blur-background = false;
    };
    dock = {
        shadow = false;
        clip-shadow-above = true;
    };
    dnd = {
        shadow = false;
    };
    popup_menu = {
        opacity = 0.95;
        shadow = false;
    };
    dropdown_menu = {
        opacity = 0.95;
        shadow = false;
    };
};
";

pub open spec fn blur_section(c: Config) -> Seq<u8> {
    if c.blur_enabled {
        bytes(BLUR_METHOD@) + bytes(c.blur_method@) + bytes(BLUR_STRENGTH@) + digits(c.blur_strength as nat)
            + bytes(BLUR_REST@)
    } else {
        bytes(BLUR_OFF@)
    }
}

pub open spec fn shadow_section(c: Config, t: CompositorText) -> Seq<u8> {
    if c.shadow_enabled {
        bytes(SHADOW_RADIUS@) + digits(c.shadow_radius as nat) + bytes(SHADOW_OPACITY@) + bytes(t.shadow_opacity@)
            + bytes(SHADOW_OFFSET_X@) + signed_digits(c.shadow_offset_x as int) + bytes(SHADOW_OFFSET_Y@)
            + signed_digits(c.shadow_offset_y as int) + bytes(SHADOW_REST@)
    } else {
        bytes(SHADOW_OFF@)
    }
}

pub open spec fn fade_section(c: Config) -> Seq<u8> {
    if c.fade_enabled {
        bytes(FADE_DELTA@) + digits(c.fade_delta as nat) + bytes(FADE_REST@)
    } else {
        bytes(FADE_OFF@)
    }
}

pub open spec fn opacity_section(t: CompositorText) -> Seq<u8> {
    if t.dim_unfocused {
        bytes(ACTIVE_OPACITY@) + bytes(t.opacity_focused@) + bytes(INACTIVE_OPACITY@) + bytes(t.opacity_unfocused@)
            + bytes(FRAME_OPACITY@)
    } else {
        bytes(OPAQUE@)
    }
}

/// The animation presets picom knows.
pub open spec fn valid_preset(s: Seq<char>) -> bool {
    ||| s == "slide-in"@
    ||| s == "slide-out"@
    ||| s == "fly-in"@
    ||| s == "fly-out"@
    ||| s == "appear"@
    ||| s == "disappear"@
}

/// Animations when the opening or the closing one is a preset picom
/// knows; the other then falls back to `appear` or `disappear`.
pub open spec fn animation_section(c: Config, t: CompositorText) -> Seq<u8> {
    let open_valid = valid_preset(c.animation_open@);
    let close_valid = valid_preset(c.animation_close@);
    if open_valid || close_valid {
        let open = if open_valid { c.animation_open@ } else { "appear"@ };
        let close = if close_valid { c.animation_close@ } else { "disappear"@ };
        bytes(OPEN_PRESET@) + bytes(open) + bytes(PRESET_DURATION@) + bytes(t.animation_duration@)
            + bytes(CLOSE_PRESET@) + bytes(close) + bytes(PRESET_DURATION@) + bytes(t.animation_duration@)
            + bytes(GEOMETRY_DURATION@) + bytes(t.geometry_duration@) + bytes(ANIMATIONS_END@)
    } else {
        bytes(ANIMATIONS_OFF@)
    }
}

pub open spec fn shader_section(t: CompositorText) -> Seq<u8> {
    match t.shader {
        Some(s) => bytes(SHADER@) + bytes(s@) + bytes(QUOTE_END@),
        None => bytes(NO_SHADER@),
    }
}

pub open spec fn corner_part(r: PicomRuleText) -> Seq<u8> {
    match r.corner_radius {
        Some(cr) => bytes(RULE_CORNER@) + digits(cr as nat) + bytes(LINE_END@),
        None => Seq::empty(),
    }
}

pub open spec fn opacity_part(r: PicomRuleText) -> Seq<u8> {
    match r.opacity {
        Some(o) => bytes(RULE_OPACITY@) + bytes(o@) + bytes(LINE_END@),
        None => Seq::empty(),
    }
}

pub open spec fn shadow_part(r: PicomRuleText) -> Seq<u8> {
    match r.shadow {
        Some(b) => bytes(RULE_SHADOW@) + bool_text(b) + bytes(LINE_END@),
        None => Seq::empty(),
    }
}

pub open spec fn blur_part(r: PicomRuleText) -> Seq<u8> {
    match r.blur_background {
        Some(b) => bytes(RULE_BLUR@) + bool_text(b) + bytes(LINE_END@),
        None => Seq::empty(),
    }
}

pub open spec fn shader_part(r: PicomRuleText) -> Seq<u8> {
    match r.shader {
        Some(s) => bytes(RULE_SHADER@) + bytes(s@) + bytes(RULE_SHADER_END@),
        None => Seq::empty(),
    }
}

/// One per-window rule: its match, then each setting it has.
pub open spec fn rule_text(r: PicomRuleText) -> Seq<u8> {
    bytes(RULE_MATCH@) + bytes(r.match_expr@) + bytes(RULE_MATCH_END@) + corner_part(r) + opacity_part(r)
        + shadow_part(r) + blur_part(r) + shader_part(r) + bytes(RULE_END@)
}

pub open spec fn rules_text(rules: Seq<PicomRuleText>) -> Seq<u8>
    decreases rules.len(),
{
    if rules.len() == 0 {
        Seq::empty()
    } else {
        rules_text(rules.drop_last()) + rule_text(rules.last())
    }
}

pub open spec fn rules_section(t: CompositorText) -> Seq<u8> {
    if t.rules@.len() == 0 {
        bytes(NO_RULES@)
    } else {
        bytes(RULES_START@) + rules_text(t.rules@) + bytes(RULES_END@)
    }
}

/// The whole of picom.conf: the fixed backend and corner settings, then
/// the blur, shadow, fading, focus opacity, animation, shader and rule
/// sections, each on or off as the settings say, then the window types.
pub open spec fn spec_picom_config(c: Config, t: CompositorText) -> Seq<u8> {
    bytes(HEADER@) + digits(c.corner_radius as nat) + bytes(CORNERS_EXCLUDE@)
        + blur_section(c) + bytes(SECTION_BREAK@)
        + shadow_section(c, t) + bytes(SECTION_BREAK@)
        + fade_section(c) + bytes(SECTION_BREAK@)
        + opacity_section(t) + bytes(SECTION_BREAK@)
        + animation_section(c, t) + bytes(SECTION_BREAK@)
        + shader_section(t) + bytes(SECTION_BREAK@)
        + rules_section(t) + bytes(WINDOW_TYPES@)
}

/// Append the bytes of `s`.
fn put(v: &mut Vec<u8>, s: &str)
    ensures
        final(v)@ == old(v)@ + bytes(s@),
{
    let b = s.as_bytes();
    let ghost start = v@;
    let mut k: usize = 0;
    while k < b.len()
        invariant
            k <= b@.len(),
            b@ == bytes(s@),
            v@ == start + b@.subrange(0, k as int),
        decreases b@.len() - k,
    {
        v.push(b[k]);
        assert(v@ =~= start + b@.subrange(0, k + 1));
        k = k + 1;
    }
    assert(b@.subrange(0, b@.len() as int) =~= b@);
}

/// Append the decimal digits of `n`.
fn put_u32(v: &mut Vec<u8>, n: u32)
    ensures
        final(v)@ == old(v)@ + digits(n as nat),
    decreases n,
{
    if n >= 10 {
        put_u32(v, n / 10);
    }
    v.push((48 + n % 10) as u8);
    proof {
        if n >= 10 {
            assert(final(v)@ =~= old(v)@ + digits(n as nat));
        } else {
            assert(final(v)@ =~= old(v)@ + digits(n as nat));
        }
    }
}

/// Append `i` in decimal, with a minus sign when negative.
fn put_i32(v: &mut Vec<u8>, i: i32)
    ensures
        final(v)@ == old(v)@ + signed_digits(i as int),
{
    if i < 0 {
        v.push(45u8);
        let magnitude: u32 = (-(i as i64)) as u32;
        put_u32(v, magnitude);
        assert(final(v)@ =~= old(v)@ + signed_digits(i as int));
    } else {
        put_u32(v, i as u32);
    }
}

fn put_bool(v: &mut Vec<u8>, b: bool)
    ensures
        final(v)@ == old(v)@ + bool_text(b),
{
    if b {
        put(v, "true");
    } else {
        put(v, "false");
    }
}

/// The bytes of `s` in a new vector.
fn text(s: &str) -> (v: Vec<u8>)
    ensures
        v@ == bytes(s@),
{
    let mut v: Vec<u8> = Vec::new();
    put(&mut v, s);
    assert(v@ =~= bytes(s@));
    v
}

/// Append the bytes of `w`.
fn put_all(v: &mut Vec<u8>, w: Vec<u8>)
    ensures
        final(v)@ == old(v)@ + w@,
{
    let mut w = w;
    v.append(&mut w);
}

fn is_valid_preset(s: &str) -> (b: bool)
    ensures
        b == valid_preset(s@),
{
    str_eq(s, "slide-in") || str_eq(s, "slide-out") || str_eq(s, "fly-in") || str_eq(s, "fly-out")
        || str_eq(s, "appear") || str_eq(s, "disappear")
}

fn blur_bytes(c: &Config) -> (v: Vec<u8>)
    ensures
        v@ == blur_section(*c),
{
    if c.blur_enabled {
        let mut v = text(BLUR_METHOD);
        put(&mut v, c.blur_method.as_str());
        put(&mut v, BLUR_STRENGTH);
        put_u32(&mut v, c.blur_strength);
        put(&mut v, BLUR_REST);
        v
    } else {
        text(BLUR_OFF)
    }
}

fn shadow_bytes(c: &Config, t: &CompositorText) -> (v: Vec<u8>)
    ensures
        v@ == shadow_section(*c, *t),
{
    if c.shadow_enabled {
        let mut v = text(SHADOW_RADIUS);
        put_u32(&mut v, c.shadow_radius);
        put(&mut v, SHADOW_OPACITY);
        put(&mut v, t.shadow_opacity.as_str());
        put(&mut v, SHADOW_OFFSET_X);
        put_i32(&mut v, c.shadow_offset_x);
        put(&mut v, SHADOW_OFFSET_Y);
        put_i32(&mut v, c.shadow_offset_y);
        put(&mut v, SHADOW_REST);
        v
    } else {
        text(SHADOW_OFF)
    }
}

fn fade_bytes(c: &Config) -> (v: Vec<u8>)
    ensures
        v@ == fade_section(*c),
{
    if c.fade_enabled {
        let mut v = text(FADE_DELTA);
        put_u32(&mut v, c.fade_delta);
        put(&mut v, FADE_REST);
        v
    } else {
        text(FADE_OFF)
    }
}

fn opacity_bytes(t: &CompositorText) -> (v: Vec<u8>)
    ensures
        v@ == opacity_section(*t),
{
    if t.dim_unfocused {
        let mut v = text(ACTIVE_OPACITY);
        put(&mut v, t.opacity_focused.as_str());
        put(&mut v, INACTIVE_OPACITY);
        put(&mut v, t.opacity_unfocused.as_str());
        put(&mut v, FRAME_OPACITY);
        v
    } else {
        text(OPAQUE)
    }
}

fn animation_bytes(c: &Config, t: &CompositorText) -> (v: Vec<u8>)
    ensures
        v@ == animation_section(*c, *t),
{
    let open_valid = is_valid_preset(c.animation_open.as_str());
    let close_valid = is_valid_preset(c.animation_close.as_str());
    if open_valid || close_valid {
        let open: &str = if open_valid { c.animation_open.as_str() } else { "appear" };
        let close: &str = if close_valid { c.animation_close.as_str() } else { "disappear" };
        let mut v = text(OPEN_PRESET);
        put(&mut v, open);
        put(&mut v, PRESET_DURATION);
        put(&mut v, t.animation_duration.as_str());
        put(&mut v, CLOSE_PRESET);
        put(&mut v, close);
        put(&mut v, PRESET_DURATION);
        put(&mut v, t.animation_duration.as_str());
        put(&mut v, GEOMETRY_DURATION);
        put(&mut v, t.geometry_duration.as_str());
        put(&mut v, ANIMATIONS_END);
        v
    } else {
        text(ANIMATIONS_OFF)
    }
}

fn shader_bytes(t: &CompositorText) -> (v: Vec<u8>)
    ensures
        v@ == shader_section(*t),
{
    match &t.shader {
        Some(s) => {
            let mut v = text(SHADER);
            put(&mut v, s.as_str());
            put(&mut v, QUOTE_END);
            v
        },
        None => text(NO_SHADER),
    }
}

fn rule_bytes(r: &PicomRuleText) -> (v: Vec<u8>)
    ensures
        v@ == rule_text(*r),
{
    let mut v = text(RULE_MATCH);
    put(&mut v, r.match_expr.as_str());
    put(&mut v, RULE_MATCH_END);
    let corner: Vec<u8> = match r.corner_radius {
        Some(cr) => {
            let mut w = text(RULE_CORNER);
            put_u32(&mut w, cr);
            put(&mut w, LINE_END);
            w
        },
        None => Vec::new(),
    };
    put_all(&mut v, corner);
    let opacity: Vec<u8> = match &r.opacity {
        Some(o) => {
            let mut w = text(RULE_OPACITY);
            put(&mut w, o.as_str());
            put(&mut w, LINE_END);
            w
        },
        None => Vec::new(),
    };
    put_all(&mut v, opacity);
    let shadow: Vec<u8> = match r.shadow {
        Some(b) => {
            let mut w = text(RULE_SHADOW);
            put_bool(&mut w, b);
            put(&mut w, LINE_END);
            w
        },
        None => Vec::new(),
    };
    put_all(&mut v, shadow);
    let blur: Vec<u8> = match r.blur_background {
        Some(b) => {
            let mut w = text(RULE_BLUR);
            put_bool(&mut w, b);
            put(&mut w, LINE_END);
            w
        },
        None => Vec::new(),
    };
    put_all(&mut v, blur);
    let shader: Vec<u8> = match &r.shader {
        Some(s) => {
            let mut w = text(RULE_SHADER);
            put(&mut w, s.as_str());
            put(&mut w, RULE_SHADER_END);
            w
        },
        None => Vec::new(),
    };
    put_all(&mut v, shader);
    put(&mut v, RULE_END);
    v
}

fn rules_bytes(t: &CompositorText) -> (v: Vec<u8>)
    ensures
        v@ == rules_section(*t),
{
    if t.rules.len() == 0 {
        return text(NO_RULES);
    }
    let mut w: Vec<u8> = Vec::new();
    let mut i: usize = 0;
    assert(t.rules@.subrange(0, 0) =~= Seq::<PicomRuleText>::empty());
    while i < t.rules.len()
        invariant
            i <= t.rules@.len(),
            w@ == rules_text(t.rules@.subrange(0, i as int)),
        decreases t.rules@.len() - i,
    {
        let ghost q = t.rules@.subrange(0, i + 1);
        assert(q.drop_last() =~= t.rules@.subrange(0, i as int));
        assert(q.last() == t.rules@[i as int]);
        put_all(&mut w, rule_bytes(&t.rules[i]));
        i = i + 1;
    }
    assert(t.rules@.subrange(0, t.rules@.len() as int) =~= t.rules@);
    let mut v = text(RULES_START);
    put_all(&mut v, w);
    put(&mut v, RULES_END);
    v
}

/// The bytes of picom.conf for the settings (see `spec_picom_config`).
pub fn picom_config(c: &Config, t: &CompositorText) -> (v: Vec<u8>)
    ensures
        v@ == spec_picom_config(*c, *t),
{
    let mut v = text(HEADER);
    put_u32(&mut v, c.corner_radius);
    put(&mut v, CORNERS_EXCLUDE);
    put_all(&mut v, blur_bytes(c));
    put(&mut v, SECTION_BREAK);
    put_all(&mut v, shadow_bytes(c, t));
    put(&mut v, SECTION_BREAK);
    put_all(&mut v, fade_bytes(c));
    put(&mut v, SECTION_BREAK);
    put_all(&mut v, opacity_bytes(t));
    put(&mut v, SECTION_BREAK);
    put_all(&mut v, animation_bytes(c, t));
    put(&mut v, SECTION_BREAK);
    put_all(&mut v, shader_bytes(t));
    put(&mut v, SECTION_BREAK);
    put_all(&mut v, rules_bytes(t));
    put(&mut v, WINDOW_TYPES);
    v
}

} // verus!
