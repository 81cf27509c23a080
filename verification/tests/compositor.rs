use gar::config::compositor::{picom_config, CompositorText, PicomRuleText};
use gar::config::Config;

fn plain_text() -> CompositorText {
    CompositorText {
        shadow_opacity: "0.75".to_string(),
        dim_unfocused: false,
        opacity_focused: "1.00".to_string(),
        opacity_unfocused: "1.00".to_string(),
        animation_duration: "0.20".to_string(),
        geometry_duration: "0.10".to_string(),
        shader: None,
        rules: Vec::new(),
    }
}

fn conf(c: &Config, t: &CompositorText) -> String {
    String::from_utf8(picom_config(c, t)).unwrap()
}

#[test]
fn default_settings_file() {
    let text = conf(&Config::default(), &plain_text());
    assert!(text.starts_with("# picom.conf - Auto-generated by gar window manager\n# DO NOT EDIT MANUALLY - changes will be overwritten on reload\n"));
    assert!(text.contains("backend = \"glx\";\nvsync = true;\n"));
    assert!(text.contains("# Rounded Corners\ncorner-radius = 12;\n\nrounded-corners-exclude = [\n"));
    assert!(text.contains("# Blur\nblur-method = \"dual_kawase\";\nblur-strength = 5;\nblur-background = true;\n"));
    assert!(text.contains(
        "# Shadows\nshadow = true;\nshadow-radius = 12;\nshadow-opacity = 0.75;\nshadow-offset-x = -7;\nshadow-offset-y = -7;\n"
    ));
    assert!(text.contains("# Fading / Animations\nfading = true;\nfade-in-step = 0.028;\nfade-out-step = 0.03;\nfade-delta = 10;\n"));
    assert!(text.contains("\n\n# Focus opacity: all windows fully opaque\n\n# Animations disabled\n\n# No custom shader\n\n# No per-window rules\n\n# Window Type Settings\n"));
    assert!(text.ends_with("    dropdown_menu = {\n        opacity = 0.95;\n        shadow = false;\n    };\n};\n"));
}

#[test]
fn disabled_sections() {
    let mut c = Config::default();
    c.blur_enabled = false;
    c.shadow_enabled = false;
    c.fade_enabled = false;
    c.corner_radius = 0;
    let text = conf(&c, &plain_text());
    assert!(text.contains("corner-radius = 0;\n"));
    assert!(text.contains("\n\n# Blur disabled\n\n# Shadows disabled\nshadow = false;\n\n# Fading disabled\nfading = false;\n\n"));
    assert!(!text.contains("blur-method"));
}

#[test]
fn dimming_animations_shader_and_rules() {
    let mut c = Config::default();
    c.animation_open = "slide-in".to_string();
    c.animation_close = "bounce".to_string();
    c.shadow_offset_x = 3;
    c.fade_delta = 1234;
    let mut t = plain_text();
    t.dim_unfocused = true;
    t.opacity_unfocused = "0.85".to_string();
    t.shader = Some("/home/u/shader.glsl".to_string());
    t.rules.push(PicomRuleText {
        match_expr: "class_g = 'Firefox'".to_string(),
        corner_radius: Some(8),
        opacity: Some("0.90".to_string()),
        shadow: Some(false),
        blur_background: None,
        shader: None,
    });
    t.rules.push(PicomRuleText {
        match_expr: "name = 'x'".to_string(),
        corner_radius: None,
        opacity: None,
        shadow: None,
        blur_background: Some(true),
        shader: Some("/s.glsl".to_string()),
    });
    let text = conf(&c, &t);
    assert!(text.contains("shadow-offset-x = 3;\n"));
    assert!(text.contains("fade-delta = 1234;\n"));
    assert!(text.contains("# Focus Opacity\nactive-opacity = 1.00;\ninactive-opacity = 0.85;\nframe-opacity = 1.0;"));
    assert!(text.contains(
        "# Animations\nanimations = ({\n    triggers = [\"open\", \"show\"];\n    preset = \"slide-in\";\n    duration = 0.20;\n},\n{\n    triggers = [\"close\", \"hide\"];\n    preset = \"disappear\";\n    duration = 0.20;\n},\n{\n    triggers = [\"geometry\"];\n    preset = \"geometry-change\";\n    duration = 0.10;\n});"
    ));
    assert!(text.contains("# Custom Shader\nwindow-shader-fg = \"/home/u/shader.glsl\";"));
    assert!(text.contains(
        "# Per-window Rules\nrules = (\n    {\n        match = \"class_g = 'Firefox'\";\n        corner-radius = 8;\n        opacity = 0.90;\n        shadow = false;\n    },\n    {\n        match = \"name = 'x'\";\n        blur-background = true;\n        shader = \"/s.glsl\";\n    },\n);"
    ));
}

#[test]
fn unknown_presets_turn_animations_off() {
    let mut c = Config::default();
    c.animation_open = "zoom".to_string();
    c.animation_close = "fade".to_string();
    assert!(conf(&c, &plain_text()).contains("# Animations disabled"));
    c.animation_close = "fly-out".to_string();
    let text = conf(&c, &plain_text());
    assert!(text.contains("preset = \"appear\";"));
    assert!(text.contains("preset = \"fly-out\";"));
}

use gar::x11::gradient::gradient_plan;

fn rect_of(r: &gar::wm::tree::Rect) -> (i16, i16, u16, u16) {
    (r.x, r.y, r.width, r.height)
}

#[test]
fn no_border_no_strips() {
    assert!(gradient_plan(100, 60, 0, "vertical").is_empty());
}

#[test]
fn vertical_gradient_bands() {
    let plan = gradient_plan(100, 60, 2, "vertical");
    assert_eq!(plan.len(), 8);
    assert_eq!(plan[1].rects.iter().map(rect_of).collect::<Vec<_>>(), vec![(0, 15, 2, 15), (98, 15, 2, 15)]);
    assert_eq!((plan[1].num, plan[1].den), (1, 3));
    assert_eq!(plan[6].rects.iter().map(rect_of).collect::<Vec<_>>(), vec![(50, 0, 25, 2), (50, 58, 25, 2)]);
    assert_eq!((plan[6].num, plan[6].den), (2, 3));
}

#[test]
fn horizontal_gradient_starts_with_edges() {
    let plan = gradient_plan(100, 60, 2, "horizontal");
    assert_eq!(plan.len(), 8);
    assert_eq!(plan[0].rects.iter().map(rect_of).collect::<Vec<_>>(), vec![(0, 0, 25, 2), (0, 58, 25, 2)]);
    assert_eq!(plan[7].rects.iter().map(rect_of).collect::<Vec<_>>(), vec![(0, 45, 2, 15), (98, 45, 2, 15)]);
    assert_eq!((plan[7].num, plan[7].den), (3, 3));
}

#[test]
fn diagonal_gradient_pixels() {
    let plan = gradient_plan(5, 4, 1, "diagonal");
    assert_eq!(plan.len(), 14);
    assert!(plan.iter().all(|s| s.den == 9 && s.rects.len() == 1));
    assert_eq!((rect_of(&plan[2].rects[0]), plan[2].num), ((2, 0, 1, 1), 2));
    assert_eq!((rect_of(&plan[7].rects[0]), plan[7].num), ((2, 3, 1, 1), 5));
    assert_eq!((rect_of(&plan[10].rects[0]), plan[10].num), ((0, 1, 1, 1), 1));
    assert_eq!((rect_of(&plan[13].rects[0]), plan[13].num), ((4, 2, 1, 1), 6));
}

#[test]
fn wide_border_uses_thirty_two_bands() {
    let plan = gradient_plan(640, 480, 20, "vertical");
    assert_eq!(plan.len(), 64);
    assert_eq!(plan[31].den, 31);
    assert_eq!(plan[31].rects.iter().map(rect_of).collect::<Vec<_>>(), vec![(0, 465, 20, 15), (620, 465, 20, 15)]);
}
