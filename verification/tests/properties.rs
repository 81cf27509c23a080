use gar::wm::monitor::Monitor;
use gar::wm::tree::Rect;
use gar::x11::properties::{
    desktop_names, get_size_hints, get_strut, get_wm_class, get_wm_hints, keycode_from_keysym, order_monitors,
    should_float, should_ignore, supports_delete_window, KeyboardMapping, Property, SizeHints, Strut, TypeAtoms,
    WmHints, ATOM_TYPE, CARDINAL_TYPE, WINDOW_TYPE,
};

fn atoms() -> TypeAtoms {
    TypeAtoms { dialog: 301, utility: 302, toolbar: 303, splash: 304, notification: 305, dock: 306, desktop: 307, modal: 308 }
}

fn atom_prop(words: Vec<u32>) -> Option<Property> {
    Some(Property { kind: ATOM_TYPE, format: 32, len: words.len() * 4, words })
}

fn card_prop(words: Vec<u32>) -> Option<Property> {
    Some(Property { kind: CARDINAL_TYPE, format: 32, len: words.len() * 4, words })
}

#[test]
fn dialogs_transients_and_modals_float() {
    let a = atoms();
    assert!(should_float(&None, &atom_prop(vec![999, 301]), &None, &a));
    assert!(should_float(&Some(Property { kind: WINDOW_TYPE, format: 32, len: 4, words: vec![77] }), &None, &None, &a));
    assert!(!should_float(&Some(Property { kind: WINDOW_TYPE, format: 32, len: 0, words: vec![] }), &None, &None, &a));
    assert!(should_float(&None, &None, &atom_prop(vec![308]), &a));
    assert!(!should_float(&None, &atom_prop(vec![306]), &atom_prop(vec![1]), &a));
    let wrong_format = Some(Property { kind: ATOM_TYPE, format: 8, len: 4, words: vec![301] });
    assert!(!should_float(&None, &wrong_format, &None, &a));
}

#[test]
fn docks_and_desktops_are_ignored() {
    let a = atoms();
    assert!(should_ignore(&atom_prop(vec![306]), &a));
    assert!(should_ignore(&atom_prop(vec![1, 307]), &a));
    assert!(!should_ignore(&atom_prop(vec![301]), &a));
    assert!(!should_ignore(&None, &a));
}

#[test]
fn delete_window_protocol() {
    assert!(supports_delete_window(&atom_prop(vec![5, 6, 7]), 6));
    assert!(!supports_delete_window(&atom_prop(vec![5, 7]), 6));
    assert!(!supports_delete_window(&None, 6));
}

#[test]
fn wm_hints_flags() {
    let h = get_wm_hints(&card_prop(vec![1 | 2 | 256, 0, 3])).unwrap();
    assert_eq!(h, WmHints { input: false, initial_state: Some(3), urgent: true });
    let plain = get_wm_hints(&card_prop(vec![0])).unwrap();
    assert_eq!(plain, WmHints { input: true, initial_state: None, urgent: false });
    assert_eq!(get_wm_hints(&card_prop(vec![])), None);
    assert_eq!(get_wm_hints(&Some(Property { kind: 0, format: 8, len: 8, words: vec![1, 2] })), None);
}

#[test]
fn size_hints_fields() {
    let mut v = vec![0u32; 18];
    v[0] = 16 | 32;
    v[5] = 100;
    v[6] = 50;
    v[7] = 800;
    v[8] = 600;
    let h = get_size_hints(&card_prop(v)).unwrap();
    assert_eq!(h, SizeHints {
        min_width: Some(100),
        min_height: Some(50),
        max_width: Some(800),
        max_height: Some(600),
        ..SizeHints::default()
    });
    let short = get_size_hints(&card_prop(vec![16, 0, 0])).unwrap();
    assert_eq!(short, SizeHints::default());
}

#[test]
fn strut_partial_first_then_plain() {
    let partial = card_prop(vec![0, 0, 30, 0, 0, 0, 0, 0, 0, 1920, 0, 0]);
    let plain = card_prop(vec![1, 2, 3, 4]);
    assert_eq!(get_strut(&partial, &plain), Some(Strut { left: 0, right: 0, top: 30, bottom: 0 }));
    assert_eq!(get_strut(&None, &plain), Some(Strut { left: 1, right: 2, top: 3, bottom: 4 }));
    assert_eq!(get_strut(&card_prop(vec![1, 2]), &None), None);
}

#[test]
fn wm_class_fields() {
    assert_eq!(get_wm_class(8, b"navigator\0Firefox\0"), Some(("navigator".to_string(), "Firefox".to_string())));
    assert_eq!(get_wm_class(8, b"\0\0a\0\0b"), Some(("a".to_string(), "b".to_string())));
    assert_eq!(get_wm_class(8, b"only\0"), None);
    assert_eq!(get_wm_class(32, b"a\0b\0"), None);
    assert_eq!(get_wm_class(8, b"a\0\xff\0"), None);
}

#[test]
fn desktop_names_are_nul_terminated() {
    let names = vec!["1".to_string(), "web".to_string(), "é".to_string()];
    assert_eq!(desktop_names(&names), b"1\0web\0\xc3\xa9\0".to_vec());
    assert!(desktop_names(&Vec::new()).is_empty());
}

#[test]
fn keycodes_from_the_mapping() {
    let m = KeyboardMapping { min_keycode: 8, max_keycode: 10, keysyms_per_keycode: 2, keysyms: vec![1, 2, 3, 2, 5, 6] };
    assert_eq!(keycode_from_keysym(&m, 2), Some(8));
    assert_eq!(keycode_from_keysym(&m, 5), Some(10));
    assert_eq!(keycode_from_keysym(&m, 9), None);
}

#[test]
fn monitors_ordered_left_to_right_stably() {
    let ms = vec![
        Monitor::new("c".to_string(), 3, Rect::new(3840, 0, 1920, 1080)),
        Monitor::new("a".to_string(), 1, Rect::new(0, 0, 1920, 1080)),
        Monitor::new("b1".to_string(), 2, Rect::new(1920, 0, 1920, 1080)),
        Monitor::new("b2".to_string(), 4, Rect::new(1920, 100, 1920, 1080)),
    ];
    let names: Vec<String> = order_monitors(ms).into_iter().map(|m| m.name).collect();
    assert_eq!(names, vec!["a", "b1", "b2", "c"]);
}
