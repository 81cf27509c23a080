pub mod compositor;
pub mod keys;
pub mod rules;
pub mod state;

use vstd::prelude::*;
use crate::config::keys::{parse_color, spec_parse_color};
use crate::text::str_eq;

verus! {

/// The settings of the window manager. The compositor's fractional settings
/// (opacities, animation duration) are kept by the program that runs the
/// compositor.
#[derive(Debug, Clone)]
pub struct Config {
    pub border_width: u32,
    pub border_color_focused: u32,
    pub border_color_unfocused: u32,
    pub border_color_urgent: u32,
    pub border_color_swap_target: u32,
    pub gap_inner: u32,
    pub gap_outer: u32,
    pub titlebar_enabled: bool,
    pub titlebar_height: u32,
    pub titlebar_color_focused: u32,
    pub titlebar_color_unfocused: u32,
    pub titlebar_text_color: u32,
    pub follow_window_on_move: bool,
    pub mouse_follows_focus: bool,
    /// Space kept for a bar at the top of each monitor (0: none).
    pub bar_height: u32,
    pub bar_enabled: bool,
    pub notification_enabled: bool,
    /// Monitor names in left-to-right order (empty: by position).
    pub monitor_order: Vec<String>,
    pub screen_timeout_enabled: bool,
    pub screen_timeout_seconds: u32,
    pub corner_radius: u32,
    pub blur_enabled: bool,
    pub blur_method: String,
    pub blur_strength: u32,
    pub shadow_enabled: bool,
    pub shadow_radius: u32,
    pub shadow_offset_x: i32,
    pub shadow_offset_y: i32,
    pub fade_enabled: bool,
    pub fade_delta: u32,
    pub border_gradient_enabled: bool,
    pub border_gradient_start_focused: u32,
    pub border_gradient_end_focused: u32,
    pub border_gradient_start_unfocused: u32,
    pub border_gradient_end_unfocused: u32,
    pub border_gradient_direction: String,
    pub animation_open: String,
    pub animation_close: String,
    pub animation_curve: String,
    pub picom_shader: Option<String>,
}

/// A value given to a setting from the configuration script.
#[derive(Debug)]
pub enum ConfigValue {
    Integer(i64),
    /// A number with a fractional part; only the compositor reads those.
    Number,
    Boolean(bool),
    Text(String),
    /// A list of strings, such as the monitor order.
    List(Vec<String>),
    /// Anything else (a function, a table that is no list, nil).
    Other,
}

/// A setting a configuration script can name.
#[derive(Debug, Clone, Copy, PartialEq, Eq, Structural)]
pub enum ConfigKey {
    BorderWidth,
    BorderColorFocused,
    BorderColorUnfocused,
    BorderColorUrgent,
    BorderColorSwapTarget,
    GapInner,
    GapOuter,
    TitlebarEnabled,
    TitlebarHeight,
    TitlebarColorFocused,
    TitlebarColorUnfocused,
    TitlebarTextColor,
    FollowWindowOnMove,
    MouseFollowsFocus,
    BarHeight,
    CornerRadius,
    BlurEnabled,
    BlurMethod,
    BlurStrength,
    ShadowEnabled,
    ShadowRadius,
    ShadowOpacity,
    ShadowOffsetX,
    ShadowOffsetY,
    OpacityFocused,
    OpacityUnfocused,
    FadeEnabled,
    FadeDelta,
    BorderGradientEnabled,
    BorderGradientStartFocused,
    BorderGradientEndFocused,
    BorderGradientStartUnfocused,
    BorderGradientEndUnfocused,
    BorderGradientDirection,
    AnimationOpen,
    AnimationClose,
    AnimationDuration,
    AnimationCurve,
    PicomShader,
    MonitorOrder,
    ScreenTimeoutEnabled,
    ScreenTimeout,
}

/// The setting a key names.
pub open spec fn spec_config_key(key: Seq<char>) -> Option<ConfigKey> {
    if key == "border_width"@ {
        Some(ConfigKey::BorderWidth)
    } else if key == "border_color_focused"@ {
        Some(ConfigKey::BorderColorFocused)
    } else if key == "border_color_unfocused"@ {
        Some(ConfigKey::BorderColorUnfocused)
    } else if key == "border_color_urgent"@ {
        Some(ConfigKey::BorderColorUrgent)
    } else if key == "border_color_swap_target"@ {
        Some(ConfigKey::BorderColorSwapTarget)
    } else if key == "gap_inner"@ {
        Some(ConfigKey::GapInner)
    } else if key == "gap_outer"@ {
        Some(ConfigKey::GapOuter)
    } else if key == "titlebar_enabled"@ {
        Some(ConfigKey::TitlebarEnabled)
    } else if key == "titlebar_height"@ {
        Some(ConfigKey::TitlebarHeight)
    } else if key == "titlebar_color_focused"@ {
        Some(ConfigKey::TitlebarColorFocused)
    } else if key == "titlebar_color_unfocused"@ {
        Some(ConfigKey::TitlebarColorUnfocused)
    } else if key == "titlebar_text_color"@ {
        Some(ConfigKey::TitlebarTextColor)
    } else if key == "follow_window_on_move"@ {
        Some(ConfigKey::FollowWindowOnMove)
    } else if key == "mouse_follows_focus"@ {
        Some(ConfigKey::MouseFollowsFocus)
    } else if key == "bar_height"@ {
        Some(ConfigKey::BarHeight)
    } else if key == "corner_radius"@ {
        Some(ConfigKey::CornerRadius)
    } else if key == "blur_enabled"@ {
        Some(ConfigKey::BlurEnabled)
    } else if key == "blur_method"@ {
        Some(ConfigKey::BlurMethod)
    } else if key == "blur_strength"@ {
        Some(ConfigKey::BlurStrength)
    } else if key == "shadow_enabled"@ {
        Some(ConfigKey::ShadowEnabled)
    } else if key == "shadow_radius"@ {
        Some(ConfigKey::ShadowRadius)
    } else if key == "shadow_opacity"@ {
        Some(ConfigKey::ShadowOpacity)
    } else if key == "shadow_offset_x"@ {
        Some(ConfigKey::ShadowOffsetX)
    } else if key == "shadow_offset_y"@ {
        Some(ConfigKey::ShadowOffsetY)
    } else if key == "opacity_focused"@ {
        Some(ConfigKey::OpacityFocused)
    } else if key == "opacity_unfocused"@ {
        Some(ConfigKey::OpacityUnfocused)
    } else if key == "fade_enabled"@ {
        Some(ConfigKey::FadeEnabled)
    } else if key == "fade_delta"@ {
        Some(ConfigKey::FadeDelta)
    } else if key == "border_gradient_enabled"@ {
        Some(ConfigKey::BorderGradientEnabled)
    } else if key == "border_gradient_start_focused"@ {
        Some(ConfigKey::BorderGradientStartFocused)
    } else if key == "border_gradient_end_focused"@ {
        Some(ConfigKey::BorderGradientEndFocused)
    } else if key == "border_gradient_start_unfocused"@ {
        Some(ConfigKey::BorderGradientStartUnfocused)
    } else if key == "border_gradient_end_unfocused"@ {
        Some(ConfigKey::BorderGradientEndUnfocused)
    } else if key == "border_gradient_direction"@ {
        Some(ConfigKey::BorderGradientDirection)
    } else if key == "animation_open"@ {
        Some(ConfigKey::AnimationOpen)
    } else if key == "animation_close"@ {
        Some(ConfigKey::AnimationClose)
    } else if key == "animation_duration"@ {
        Some(ConfigKey::AnimationDuration)
    } else if key == "animation_curve"@ {
        Some(ConfigKey::AnimationCurve)
    } else if key == "picom_shader"@ {
        Some(ConfigKey::PicomShader)
    } else if key == "monitor_order"@ {
        Some(ConfigKey::MonitorOrder)
    } else if key == "screen_timeout_enabled"@ {
        Some(ConfigKey::ScreenTimeoutEnabled)
    } else if key == "screen_timeout"@ {
        Some(ConfigKey::ScreenTimeout)
    } else {
        None
    }
}

impl ConfigKey {
    /// The setting `key` names, if any.
    pub fn parse(key: &str) -> (k: Option<ConfigKey>)
        ensures
            k == spec_config_key(key@),
    {
        if str_eq(key, "border_width") {
            Some(ConfigKey::BorderWidth)
        } else if str_eq(key, "border_color_focused") {
            Some(ConfigKey::BorderColorFocused)
        } else if str_eq(key, "border_color_unfocused") {
            Some(ConfigKey::BorderColorUnfocused)
        } else if str_eq(key, "border_color_urgent") {
            Some(ConfigKey::BorderColorUrgent)
        } else if str_eq(key, "border_color_swap_target") {
            Some(ConfigKey::BorderColorSwapTarget)
        } else if str_eq(key, "gap_inner") {
            Some(ConfigKey::GapInner)
        } else if str_eq(key, "gap_outer") {
            Some(ConfigKey::GapOuter)
        } else if str_eq(key, "titlebar_enabled") {
            Some(ConfigKey::TitlebarEnabled)
        } else if str_eq(key, "titlebar_height") {
            Some(ConfigKey::TitlebarHeight)
        } else if str_eq(key, "titlebar_color_focused") {
            Some(ConfigKey::TitlebarColorFocused)
        } else if str_eq(key, "titlebar_color_unfocused") {
            Some(ConfigKey::TitlebarColorUnfocused)
        } else if str_eq(key, "titlebar_text_color") {
            Some(ConfigKey::TitlebarTextColor)
        } else if str_eq(key, "follow_window_on_move") {
            Some(ConfigKey::FollowWindowOnMove)
        } else if str_eq(key, "mouse_follows_focus") {
            Some(ConfigKey::MouseFollowsFocus)
        } else if str_eq(key, "bar_height") {
            Some(ConfigKey::BarHeight)
        } else if str_eq(key, "corner_radius") {
            Some(ConfigKey::CornerRadius)
        } else if str_eq(key, "blur_enabled") {
            Some(ConfigKey::BlurEnabled)
        } else if str_eq(key, "blur_method") {
            Some(ConfigKey::BlurMethod)
        } else if str_eq(key, "blur_strength") {
            Some(ConfigKey::BlurStrength)
        } else if str_eq(key, "shadow_enabled") {
            Some(ConfigKey::ShadowEnabled)
        } else if str_eq(key, "shadow_radius") {
            Some(ConfigKey::ShadowRadius)
        } else if str_eq(key, "shadow_opacity") {
            Some(ConfigKey::ShadowOpacity)
        } else if str_eq(key, "shadow_offset_x") {
            Some(ConfigKey::ShadowOffsetX)
        } else if str_eq(key, "shadow_offset_y") {
            Some(ConfigKey::ShadowOffsetY)
        } else if str_eq(key, "opacity_focused") {
            Some(ConfigKey::OpacityFocused)
        } else if str_eq(key, "opacity_unfocused") {
            Some(ConfigKey::OpacityUnfocused)
        } else if str_eq(key, "fade_enabled") {
            Some(ConfigKey::FadeEnabled)
        } else if str_eq(key, "fade_delta") {
            Some(ConfigKey::FadeDelta)
        } else if str_eq(key, "border_gradient_enabled") {
            Some(ConfigKey::BorderGradientEnabled)
        } else if str_eq(key, "border_gradient_start_focused") {
            Some(ConfigKey::BorderGradientStartFocused)
        } else if str_eq(key, "border_gradient_end_focused") {
            Some(ConfigKey::BorderGradientEndFocused)
        } else if str_eq(key, "border_gradient_start_unfocused") {
            Some(ConfigKey::BorderGradientStartUnfocused)
        } else if str_eq(key, "border_gradient_end_unfocused") {
            Some(ConfigKey::BorderGradientEndUnfocused)
        } else if str_eq(key, "border_gradient_direction") {
            Some(ConfigKey::BorderGradientDirection)
        } else if str_eq(key, "animation_open") {
            Some(ConfigKey::AnimationOpen)
        } else if str_eq(key, "animation_close") {
            Some(ConfigKey::AnimationClose)
        } else if str_eq(key, "animation_duration") {
            Some(ConfigKey::AnimationDuration)
        } else if str_eq(key, "animation_curve") {
            Some(ConfigKey::AnimationCurve)
        } else if str_eq(key, "picom_shader") {
            Some(ConfigKey::PicomShader)
        } else if str_eq(key, "monitor_order") {
            Some(ConfigKey::MonitorOrder)
        } else if str_eq(key, "screen_timeout_enabled") {
            Some(ConfigKey::ScreenTimeoutEnabled)
        } else if str_eq(key, "screen_timeout") {
            Some(ConfigKey::ScreenTimeout)
        } else {
            None
        }
    }
}

impl Config {
    /// The configuration after setting `key` to `value`. A value of the
    /// wrong kind, an unreadable color, an empty monitor list, or a
    /// compositor number leaves it as it was; integers are truncated to the
    /// setting's width.
    pub open spec fn spec_apply_option(self, key: ConfigKey, value: ConfigValue) -> Config {
        match key {
            ConfigKey::BorderWidth => match value { ConfigValue::Integer(v) => Config { border_width: v as u32, ..self }, _ => self },
            ConfigKey::BorderColorFocused => match value {
                ConfigValue::Text(s) => match spec_parse_color(s@) {
                    Some(c) => Config { border_color_focused: c, ..self },
                    None => self,
                },
                _ => self,
            },
            ConfigKey::BorderColorUnfocused => match value {
                ConfigValue::Text(s) => match spec_parse_color(s@) {
                    Some(c) => Config { border_color_unfocused: c, ..self },
                    None => self,
                },
                _ => self,
            },
            ConfigKey::BorderColorUrgent => match value {
                ConfigValue::Text(s) => match spec_parse_color(s@) {
                    Some(c) => Config { border_color_urgent: c, ..self },
                    None => self,
                },
                _ => self,
            },
            ConfigKey::BorderColorSwapTarget => match value {
                ConfigValue::Text(s) => match spec_parse_color(s@) {
                    Some(c) => Config { border_color_swap_target: c, ..self },
                    None => self,
                },
                _ => self,
            },
            ConfigKey::GapInner => match value { ConfigValue::Integer(v) => Config { gap_inner: v as u32, ..self }, _ => self },
            ConfigKey::GapOuter => match value { ConfigValue::Integer(v) => Config { gap_outer: v as u32, ..self }, _ => self },
            ConfigKey::TitlebarEnabled => match value { ConfigValue::Boolean(v) => Config { titlebar_enabled: v, ..self }, _ => self },
            ConfigKey::TitlebarHeight => match value { ConfigValue::Integer(v) => Config { titlebar_height: v as u32, ..self }, _ => self },
            ConfigKey::TitlebarColorFocused => match value {
                ConfigValue::Text(s) => match spec_parse_color(s@) {
                    Some(c) => Config { titlebar_color_focused: c, ..self },
                    None => self,
                },
                _ => self,
            },
            ConfigKey::TitlebarColorUnfocused => match value {
                ConfigValue::Text(s) => match spec_parse_color(s@) {
                    Some(c) => Config { titlebar_color_unfocused: c, ..self },
                    None => self,
                },
                _ => self,
            },
            ConfigKey::TitlebarTextColor => match value {
                ConfigValue::Text(s) => match spec_parse_color(s@) {
                    Some(c) => Config { titlebar_text_color: c, ..self },
                    None => self,
                },
                _ => self,
            },
            ConfigKey::FollowWindowOnMove => match value { ConfigValue::Boolean(v) => Config { follow_window_on_move: v, ..self }, _ => self },
            ConfigKey::MouseFollowsFocus => match value { ConfigValue::Boolean(v) => Config { mouse_follows_focus: v, ..self }, _ => self },
            ConfigKey::BarHeight => match value { ConfigValue::Integer(v) => Config { bar_height: v as u32, ..self }, _ => self },
            ConfigKey::CornerRadius => match value { ConfigValue::Integer(v) => Config { corner_radius: v as u32, ..self }, _ => self },
            ConfigKey::BlurEnabled => match value { ConfigValue::Boolean(v) => Config { blur_enabled: v, ..self }, _ => self },
            ConfigKey::BlurMethod => match value { ConfigValue::Text(s) => Config { blur_method: s, ..self }, _ => self },
            ConfigKey::BlurStrength => match value { ConfigValue::Integer(v) => Config { blur_strength: v as u32, ..self }, _ => self },
            ConfigKey::ShadowEnabled => match value { ConfigValue::Boolean(v) => Config { shadow_enabled: v, ..self }, _ => self },
            ConfigKey::ShadowRadius => match value { ConfigValue::Integer(v) => Config { shadow_radius: v as u32, ..self }, _ => self },
            ConfigKey::ShadowOpacity => self,
            ConfigKey::ShadowOffsetX => match value { ConfigValue::Integer(v) => Config { shadow_offset_x: v as i32, ..self }, _ => self },
            ConfigKey::ShadowOffsetY => match value { ConfigValue::Integer(v) => Config { shadow_offset_y: v as i32, ..self }, _ => self },
            ConfigKey::OpacityFocused => self,
            ConfigKey::OpacityUnfocused => self,
            ConfigKey::FadeEnabled => match value { ConfigValue::Boolean(v) => Config { fade_enabled: v, ..self }, _ => self },
            ConfigKey::FadeDelta => match value { ConfigValue::Integer(v) => Config { fade_delta: v as u32, ..self }, _ => self },
            ConfigKey::BorderGradientEnabled => match value { ConfigValue::Boolean(v) => Config { border_gradient_enabled: v, ..self }, _ => self },
            ConfigKey::BorderGradientStartFocused => match value {
                ConfigValue::Text(s) => match spec_parse_color(s@) {
                    Some(c) => Config { border_gradient_start_focused: c, ..self },
                    None => self,
                },
                _ => self,
            },
            ConfigKey::BorderGradientEndFocused => match value {
                ConfigValue::Text(s) => match spec_parse_color(s@) {
                    Some(c) => Config { border_gradient_end_focused: c, ..self },
                    None => self,
                },
                _ => self,
            },
            ConfigKey::BorderGradientStartUnfocused => match value {
                ConfigValue::Text(s) => match spec_parse_color(s@) {
                    Some(c) => Config { border_gradient_start_unfocused: c, ..self },
                    None => self,
                },
                _ => self,
            },
            ConfigKey::BorderGradientEndUnfocused => match value {
                ConfigValue::Text(s) => match spec_parse_color(s@) {
                    Some(c) => Config { border_gradient_end_unfocused: c, ..self },
                    None => self,
                },
                _ => self,
            },
            ConfigKey::BorderGradientDirection => match value { ConfigValue::Text(s) => Config { border_gradient_direction: s, ..self }, _ => self },
            ConfigKey::AnimationOpen => match value { ConfigValue::Text(s) => Config { animation_open: s, ..self }, _ => self },
            ConfigKey::AnimationClose => match value { ConfigValue::Text(s) => Config { animation_close: s, ..self }, _ => self },
            ConfigKey::AnimationDuration => self,
            ConfigKey::AnimationCurve => match value { ConfigValue::Text(s) => Config { animation_curve: s, ..self }, _ => self },
            ConfigKey::PicomShader => match value { ConfigValue::Text(s) => Config { picom_shader: Some(s), ..self }, _ => self },
            ConfigKey::MonitorOrder => match value {
                ConfigValue::List(l) => if l@.len() > 0 { Config { monitor_order: l, ..self } } else { self },
                _ => self,
            },
            ConfigKey::ScreenTimeoutEnabled => match value { ConfigValue::Boolean(v) => Config { screen_timeout_enabled: v, ..self }, _ => self },
            ConfigKey::ScreenTimeout => match value { ConfigValue::Integer(v) => Config { screen_timeout_seconds: v as u32, ..self }, _ => self },
        }
    }

    pub open spec fn spec_set_option(self, key: Seq<char>, value: ConfigValue) -> Config {
        match spec_config_key(key) {
            Some(k) => self.spec_apply_option(k, value),
            None => self,
        }
    }

    /// Apply `value` to the setting `key`.
    pub fn apply_option(&mut self, key: ConfigKey, value: ConfigValue)
        ensures
            *final(self) == old(self).spec_apply_option(key, value),
    {
        if key == ConfigKey::BorderWidth || key == ConfigKey::BorderColorFocused || key == ConfigKey::BorderColorUnfocused || key == ConfigKey::BorderColorUrgent || key == ConfigKey::BorderColorSwapTarget || key == ConfigKey::GapInner {
            self.apply_option_0(key, value);
        } else if key == ConfigKey::GapOuter || key == ConfigKey::TitlebarEnabled || key == ConfigKey::TitlebarHeight || key == ConfigKey::TitlebarColorFocused || key == ConfigKey::TitlebarColorUnfocused || key == ConfigKey::TitlebarTextColor {
            self.apply_option_1(key, value);
        } else if key == ConfigKey::FollowWindowOnMove || key == ConfigKey::MouseFollowsFocus || key == ConfigKey::BarHeight || key == ConfigKey::CornerRadius || key == ConfigKey::BlurEnabled || key == ConfigKey::BlurMethod {
            self.apply_option_2(key, value);
        } else if key == ConfigKey::BlurStrength || key == ConfigKey::ShadowEnabled || key == ConfigKey::ShadowRadius || key == ConfigKey::ShadowOpacity || key == ConfigKey::ShadowOffsetX || key == ConfigKey::ShadowOffsetY {
            self.apply_option_3(key, value);
        } else if key == ConfigKey::OpacityFocused || key == ConfigKey::OpacityUnfocused || key == ConfigKey::FadeEnabled || key == ConfigKey::FadeDelta || key == ConfigKey::BorderGradientEnabled || key == ConfigKey::BorderGradientStartFocused {
            self.apply_option_4(key, value);
        } else if key == ConfigKey::BorderGradientEndFocused || key == ConfigKey::BorderGradientStartUnfocused || key == ConfigKey::BorderGradientEndUnfocused || key == ConfigKey::BorderGradientDirection || key == ConfigKey::AnimationOpen || key == ConfigKey::AnimationClose {
            self.apply_option_5(key, value);
        } else if key == ConfigKey::AnimationDuration || key == ConfigKey::AnimationCurve || key == ConfigKey::PicomShader || key == ConfigKey::MonitorOrder || key == ConfigKey::ScreenTimeoutEnabled || key == ConfigKey::ScreenTimeout {
            self.apply_option_6(key, value);
        }
    }

    fn apply_option_0(&mut self, key: ConfigKey, value: ConfigValue)
        requires
            key == ConfigKey::BorderWidth || key == ConfigKey::BorderColorFocused || key == ConfigKey::BorderColorUnfocused || key == ConfigKey::BorderColorUrgent || key == ConfigKey::BorderColorSwapTarget || key == ConfigKey::GapInner,
        ensures
            *final(self) == old(self).spec_apply_option(key, value),
    {
        match key {
            ConfigKey::BorderWidth => {
                if let ConfigValue::Integer(v) = value {
                    self.border_width = v as u32;
                }
            },
            ConfigKey::BorderColorFocused => {
                if let ConfigValue::Text(s) = value {
                    if let Some(c) = parse_color(s.as_str()) {
                        self.border_color_focused = c;
                    }
                }
            },
            ConfigKey::BorderColorUnfocused => {
                if let ConfigValue::Text(s) = value {
                    if let Some(c) = parse_color(s.as_str()) {
                        self.border_color_unfocused = c;
                    }
                }
            },
            ConfigKey::BorderColorUrgent => {
                if let ConfigValue::Text(s) = value {
                    if let Some(c) = parse_color(s.as_str()) {
                        self.border_color_urgent = c;
                    }
                }
            },
            ConfigKey::BorderColorSwapTarget => {
                if let ConfigValue::Text(s) = value {
                    if let Some(c) = parse_color(s.as_str()) {
                        self.border_color_swap_target = c;
                    }
                }
            },
            ConfigKey::GapInner => {
                if let ConfigValue::Integer(v) = value {
                    self.gap_inner = v as u32;
                }
            },
            _ => {},
        }
    }

    fn apply_option_1(&mut self, key: ConfigKey, value: ConfigValue)
        requires
            key == ConfigKey::GapOuter || key == ConfigKey::TitlebarEnabled || key == ConfigKey::TitlebarHeight || key == ConfigKey::TitlebarColorFocused || key == ConfigKey::TitlebarColorUnfocused || key == ConfigKey::TitlebarTextColor,
        ensures
            *final(self) == old(self).spec_apply_option(key, value),
    {
        match key {
            ConfigKey::GapOuter => {
                if let ConfigValue::Integer(v) = value {
                    self.gap_outer = v as u32;
                }
            },
            ConfigKey::TitlebarEnabled => {
                if let ConfigValue::Boolean(v) = value {
                    self.titlebar_enabled = v;
                }
            },
            ConfigKey::TitlebarHeight => {
                if let ConfigValue::Integer(v) = value {
                    self.titlebar_height = v as u32;
                }
            },
            ConfigKey::TitlebarColorFocused => {
                if let ConfigValue::Text(s) = value {
                    if let Some(c) = parse_color(s.as_str()) {
                        self.titlebar_color_focused = c;
                    }
                }
            },
            ConfigKey::TitlebarColorUnfocused => {
                if let ConfigValue::Text(s) = value {
                    if let Some(c) = parse_color(s.as_str()) {
                        self.titlebar_color_unfocused = c;
                    }
                }
            },
            ConfigKey::TitlebarTextColor => {
                if let ConfigValue::Text(s) = value {
                    if let Some(c) = parse_color(s.as_str()) {
                        self.titlebar_text_color = c;
                    }
                }
            },
            _ => {},
        }
    }

    fn apply_option_2(&mut self, key: ConfigKey, value: ConfigValue)
        requires
            key == ConfigKey::FollowWindowOnMove || key == ConfigKey::MouseFollowsFocus || key == ConfigKey::BarHeight || key == ConfigKey::CornerRadius || key == ConfigKey::BlurEnabled || key == ConfigKey::BlurMethod,
        ensures
            *final(self) == old(self).spec_apply_option(key, value),
    {
        match key {
            ConfigKey::FollowWindowOnMove => {
                if let ConfigValue::Boolean(v) = value {
                    self.follow_window_on_move = v;
                }
            },
            ConfigKey::MouseFollowsFocus => {
                if let ConfigValue::Boolean(v) = value {
                    self.mouse_follows_focus = v;
                }
            },
            ConfigKey::BarHeight => {
                if let ConfigValue::Integer(v) = value {
                    self.bar_height = v as u32;
                }
            },
            ConfigKey::CornerRadius => {
                if let ConfigValue::Integer(v) = value {
                    self.corner_radius = v as u32;
                }
            },
            ConfigKey::BlurEnabled => {
                if let ConfigValue::Boolean(v) = value {
                    self.blur_enabled = v;
                }
            },
            ConfigKey::BlurMethod => {
                if let ConfigValue::Text(s) = value {
                    self.blur_method = s;
                }
            },
            _ => {},
        }
    }

    fn apply_option_3(&mut self, key: ConfigKey, value: ConfigValue)
        requires
            key == ConfigKey::BlurStrength || key == ConfigKey::ShadowEnabled || key == ConfigKey::ShadowRadius || key == ConfigKey::ShadowOpacity || key == ConfigKey::ShadowOffsetX || key == ConfigKey::ShadowOffsetY,
        ensures
            *final(self) == old(self).spec_apply_option(key, value),
    {
        match key {
            ConfigKey::BlurStrength => {
                if let ConfigValue::Integer(v) = value {
                    self.blur_strength = v as u32;
                }
            },
            ConfigKey::ShadowEnabled => {
                if let ConfigValue::Boolean(v) = value {
                    self.shadow_enabled = v;
                }
            },
            ConfigKey::ShadowRadius => {
                if let ConfigValue::Integer(v) = value {
                    self.shadow_radius = v as u32;
                }
            },
            ConfigKey::ShadowOpacity => {
                // Read by the compositor's settings, not kept here.
            },
            ConfigKey::ShadowOffsetX => {
                if let ConfigValue::Integer(v) = value {
                    self.shadow_offset_x = v as i32;
                }
            },
            ConfigKey::ShadowOffsetY => {
                if let ConfigValue::Integer(v) = value {
                    self.shadow_offset_y = v as i32;
                }
            },
            _ => {},
        }
    }

    fn apply_option_4(&mut self, key: ConfigKey, value: ConfigValue)
        requires
            key == ConfigKey::OpacityFocused || key == ConfigKey::OpacityUnfocused || key == ConfigKey::FadeEnabled || key == ConfigKey::FadeDelta || key == ConfigKey::BorderGradientEnabled || key == ConfigKey::BorderGradientStartFocused,
        ensures
            *final(self) == old(self).spec_apply_option(key, value),
    {
        match key {
            ConfigKey::OpacityFocused => {
                // Read by the compositor's settings, not kept here.
            },
            ConfigKey::OpacityUnfocused => {
                // Read by the compositor's settings, not kept here.
            },
            ConfigKey::FadeEnabled => {
                if let ConfigValue::Boolean(v) = value {
                    self.fade_enabled = v;
                }
            },
            ConfigKey::FadeDelta => {
                if let ConfigValue::Integer(v) = value {
                    self.fade_delta = v as u32;
                }
            },
            ConfigKey::BorderGradientEnabled => {
                if let ConfigValue::Boolean(v) = value {
                    self.border_gradient_enabled = v;
                }
            },
            ConfigKey::BorderGradientStartFocused => {
                if let ConfigValue::Text(s) = value {
                    if let Some(c) = parse_color(s.as_str()) {
                        self.border_gradient_start_focused = c;
                    }
                }
            },
            _ => {},
        }
    }

    fn apply_option_5(&mut self, key: ConfigKey, value: ConfigValue)
        requires
            key == ConfigKey::BorderGradientEndFocused || key == ConfigKey::BorderGradientStartUnfocused || key == ConfigKey::BorderGradientEndUnfocused || key == ConfigKey::BorderGradientDirection || key == ConfigKey::AnimationOpen || key == ConfigKey::AnimationClose,
        ensures
            *final(self) == old(self).spec_apply_option(key, value),
    {
        match key {
            ConfigKey::BorderGradientEndFocused => {
                if let ConfigValue::Text(s) = value {
                    if let Some(c) = parse_color(s.as_str()) {
                        self.border_gradient_end_focused = c;
                    }
                }
            },
            ConfigKey::BorderGradientStartUnfocused => {
                if let ConfigValue::Text(s) = value {
                    if let Some(c) = parse_color(s.as_str()) {
                        self.border_gradient_start_unfocused = c;
                    }
                }
            },
            ConfigKey::BorderGradientEndUnfocused => {
                if let ConfigValue::Text(s) = value {
                    if let Some(c) = parse_color(s.as_str()) {
                        self.border_gradient_end_unfocused = c;
                    }
                }
            },
            ConfigKey::BorderGradientDirection => {
                if let ConfigValue::Text(s) = value {
                    self.border_gradient_direction = s;
                }
            },
            ConfigKey::AnimationOpen => {
                if let ConfigValue::Text(s) = value {
                    self.animation_open = s;
                }
            },
            ConfigKey::AnimationClose => {
                if let ConfigValue::Text(s) = value {
                    self.animation_close = s;
                }
            },
            _ => {},
        }
    }

    fn apply_option_6(&mut self, key: ConfigKey, value: ConfigValue)
        requires
            key == ConfigKey::AnimationDuration || key == ConfigKey::AnimationCurve || key == ConfigKey::PicomShader || key == ConfigKey::MonitorOrder || key == ConfigKey::ScreenTimeoutEnabled || key == ConfigKey::ScreenTimeout,
        ensures
            *final(self) == old(self).spec_apply_option(key, value),
    {
        match key {
            ConfigKey::AnimationDuration => {
                // Read by the compositor's settings, not kept here.
            },
            ConfigKey::AnimationCurve => {
                if let ConfigValue::Text(s) = value {
                    self.animation_curve = s;
                }
            },
            ConfigKey::PicomShader => {
                if let ConfigValue::Text(s) = value {
                    self.picom_shader = Some(s);
                }
            },
            ConfigKey::MonitorOrder => {
                if let ConfigValue::List(l) = value {
                    if l.len() > 0 {
                        self.monitor_order = l;
                    }
                }
            },
            ConfigKey::ScreenTimeoutEnabled => {
                if let ConfigValue::Boolean(v) = value {
                    self.screen_timeout_enabled = v;
                }
            },
            ConfigKey::ScreenTimeout => {
                if let ConfigValue::Integer(v) = value {
                    self.screen_timeout_seconds = v as u32;
                }
            },
            _ => {},
        }
    }

    /// Apply `key = value`. Returns whether `key` names a setting.
    pub fn set_option(&mut self, key: &str, value: ConfigValue) -> (known: bool)
        ensures
            *final(self) == old(self).spec_set_option(key@, value),
            known == (spec_config_key(key@) is Some),
    {
        match ConfigKey::parse(key) {
            Some(k) => {
                self.apply_option(k, value);
                true
            },
            None => false,
        }
    }
}

/// The settings a configuration starts from, before a script changes any.
pub open spec fn is_default_config(c: Config) -> bool {
    &&& c.border_width == 2
    &&& c.border_color_focused == 0x5294e2
    &&& c.border_color_unfocused == 0x2d2d2d
    &&& c.border_color_urgent == 0xff5555
    &&& c.border_color_swap_target == 0x00ff00
    &&& c.gap_inner == 0
    &&& c.gap_outer == 0
    &&& !c.titlebar_enabled
    &&& c.titlebar_height == 20
    &&& c.titlebar_color_focused == 0x3d3d3d
    &&& c.titlebar_color_unfocused == 0x2d2d2d
    &&& c.titlebar_text_color == 0xffffff
    &&& !c.follow_window_on_move
    &&& !c.mouse_follows_focus
    &&& c.bar_height == 0
    &&& !c.bar_enabled
    &&& !c.notification_enabled
    &&& c.monitor_order@.len() == 0
    &&& c.screen_timeout_enabled
    &&& c.screen_timeout_seconds == 600
    &&& c.corner_radius == 12
    &&& c.blur_enabled
    &&& c.blur_method@ == "dual_kawase"@
    &&& c.blur_strength == 5
    &&& c.shadow_enabled
    &&& c.shadow_radius == 12
    &&& c.shadow_offset_x == -7
    &&& c.shadow_offset_y == -7
    &&& c.fade_enabled
    &&& c.fade_delta == 10
    &&& !c.border_gradient_enabled
    &&& c.border_gradient_start_focused == 0x5294e2
    &&& c.border_gradient_end_focused == 0x1a5fb4
    &&& c.border_gradient_start_unfocused == 0x3d3d3d
    &&& c.border_gradient_end_unfocused == 0x1d1d1d
    &&& c.border_gradient_direction@ == "vertical"@
    &&& c.animation_open@ == "none"@
    &&& c.animation_close@ == "none"@
    &&& c.animation_curve@ == "ease-out"@
    &&& c.picom_shader is None
}

impl Default for Config {
    fn default() -> (c: Config)
        ensures
            is_default_config(c),
    {
        Config {
            border_width: 2,
            border_color_focused: 0x5294e2,
            border_color_unfocused: 0x2d2d2d,
            border_color_urgent: 0xff5555,
            border_color_swap_target: 0x00ff00,
            gap_inner: 0,
            gap_outer: 0,
            titlebar_enabled: false,
            titlebar_height: 20,
            titlebar_color_focused: 0x3d3d3d,
            titlebar_color_unfocused: 0x2d2d2d,
            titlebar_text_color: 0xffffff,
            follow_window_on_move: false,
            mouse_follows_focus: false,
            bar_height: 0,
            bar_enabled: false,
            notification_enabled: false,
            monitor_order: Vec::new(),
            screen_timeout_enabled: true,
            screen_timeout_seconds: 600,
            corner_radius: 12,
            blur_enabled: true,
            blur_method: String::from_str("dual_kawase"),
            blur_strength: 5,
            shadow_enabled: true,
            shadow_radius: 12,
            shadow_offset_x: -7,
            shadow_offset_y: -7,
            fade_enabled: true,
            fade_delta: 10,
            border_gradient_enabled: false,
            border_gradient_start_focused: 0x5294e2,
            border_gradient_end_focused: 0x1a5fb4,
            border_gradient_start_unfocused: 0x3d3d3d,
            border_gradient_end_unfocused: 0x1d1d1d,
            border_gradient_direction: String::from_str("vertical"),
            animation_open: String::from_str("none"),
            animation_close: String::from_str("none"),
            animation_curve: String::from_str("ease-out"),
            picom_shader: None,
        }
    }
}

} // verus!
