use snaplock::{
    capture_filename, find_camera, is_valid_shortcut, parse_u32_digits, resolve_camera_id,
    screen_recording_filename, should_ignore_event, should_ignore_key, split_parts, str_contains,
    str_eq_str, str_starts_with, video_filename, CameraError, CameraIndexKind, CameraListItem,
    InputEvent, InputKey,
};

#[test]
fn split_parts_basic() {
    let parts = split_parts("Ctrl+Alt+L");
    assert_eq!(parts, vec!["Ctrl".to_string(), "Alt".to_string(), "L".to_string()]);
}

#[test]
fn split_parts_no_separator() {
    assert_eq!(split_parts("Alt"), vec!["Alt".to_string()]);
    assert_eq!(split_parts(""), vec!["".to_string()]);
}

#[test]
fn split_parts_empty_pieces() {
    assert_eq!(split_parts("+L"), vec!["".to_string(), "L".to_string()]);
    assert_eq!(split_parts("Ctrl+"), vec!["Ctrl".to_string(), "".to_string()]);
}

#[test]
fn str_contains_cases() {
    assert!(str_contains("CapsLock", "L"));
    assert!(str_contains("KeyL", "L"));
    assert!(!str_contains("KeyD", "L"));
    assert!(str_contains("anything", ""));
    assert!(!str_contains("", "x"));
}

#[test]
fn str_starts_with_cases() {
    assert!(str_starts_with("snaplock::monitor", "snaplock"));
    assert!(!str_starts_with("winit::event", "snaplock"));
    assert!(str_starts_with("abc", ""));
}

#[test]
fn str_eq_cases() {
    assert!(str_eq_str("Ctrl", "Ctrl"));
    assert!(!str_eq_str("Ctrl", "Ctr"));
    assert!(!str_eq_str("Ctrl", "Ctrk"));
}

#[test]
fn valid_shortcuts() {
    assert!(is_valid_shortcut("Ctrl+Alt+L"));
    assert!(is_valid_shortcut("Alt+L"));
    assert!(is_valid_shortcut("Cmd+Q"));
    assert!(is_valid_shortcut("Meta+Shift+F"));
}

#[test]
fn invalid_shortcuts() {
    assert!(!is_valid_shortcut("L"));
    assert!(!is_valid_shortcut(""));
    assert!(!is_valid_shortcut("Foo+L"));
    assert!(!is_valid_shortcut("Ctrl+"));
    assert!(!is_valid_shortcut("Ctrl+Shift"));
    assert!(!is_valid_shortcut("Ctrl+Alt+"));
}

#[test]
fn hotkey_filter_swallows_own_keys() {
    let shortcut = "Ctrl+Alt+L";
    assert!(should_ignore_key(&InputKey::ControlLeft, shortcut));
    assert!(should_ignore_key(&InputKey::ControlRight, shortcut));
    assert!(should_ignore_key(&InputKey::Alt, shortcut));
    assert!(should_ignore_key(&InputKey::AltGr, shortcut));
    assert!(should_ignore_key(&InputKey::KeyL, shortcut));
}

#[test]
fn hotkey_filter_passes_other_keys() {
    let shortcut = "Ctrl+Alt+L";
    assert!(!should_ignore_key(&InputKey::ShiftLeft, shortcut));
    assert!(!should_ignore_key(&InputKey::MetaLeft, shortcut));
    assert!(!should_ignore_key(&InputKey::KeyD, shortcut));
    assert!(!should_ignore_key(&InputKey::Other("Space".to_string()), shortcut));
}

#[test]
fn hotkey_filter_matches_by_printed_name() {
    // The main key "L" occurs in the printed name "CapsLock".
    assert!(should_ignore_key(&InputKey::Other("CapsLock".to_string()), "Ctrl+Alt+L"));
    assert!(!should_ignore_key(&InputKey::Other("CapsLock".to_string()), "Ctrl+Alt+D"));
}

#[test]
fn hotkey_filter_without_modifier_in_combination() {
    // "Alt+L" names no Ctrl, so control keys pass.
    assert!(!should_ignore_key(&InputKey::ControlLeft, "Alt+L"));
    assert!(should_ignore_key(&InputKey::Alt, "Alt+L"));
}

#[test]
fn events_and_pointer() {
    assert!(should_ignore_event(&InputEvent::KeyPress(InputKey::KeyL), "Alt+L"));
    assert!(should_ignore_event(&InputEvent::KeyRelease(InputKey::Alt), "Alt+L"));
    assert!(!should_ignore_event(&InputEvent::Pointer, "Alt+L"));
}

#[test]
fn parse_decimal_strings() {
    assert_eq!(parse_u32_digits("0"), Some(0));
    assert_eq!(parse_u32_digits("42"), Some(42));
    assert_eq!(parse_u32_digits("4294967295"), Some(u32::MAX));
    assert_eq!(parse_u32_digits("4294967296"), None);
    assert_eq!(parse_u32_digits(""), None);
    assert_eq!(parse_u32_digits("12a"), None);
    assert_eq!(parse_u32_digits("-3"), None);
}

#[test]
fn resolve_camera_ids() {
    assert_eq!(resolve_camera_id(&CameraIndexKind::Numeric(5), 9), 5);
    assert_eq!(resolve_camera_id(&CameraIndexKind::Named("7".to_string()), 9), 7);
    assert_eq!(resolve_camera_id(&CameraIndexKind::Named("front".to_string()), 9), 9);
}

#[test]
fn find_camera_results() {
    let none: Vec<CameraListItem> = Vec::new();
    assert_eq!(find_camera(&none, 0), Err(CameraError::NoCameras));
    let cams = vec![
        CameraListItem { id: 0, name: "Integrated".to_string() },
        CameraListItem { id: 2, name: "USB".to_string() },
    ];
    assert_eq!(find_camera(&cams, 2), Ok(1));
    assert_eq!(find_camera(&cams, 1), Err(CameraError::NotFound));
}

#[test]
fn capture_file_names() {
    assert_eq!(capture_filename("20240101_120000"), "snaplock_capture_20240101_120000.jpg");
    assert_eq!(video_filename("20240101_120000"), "snaplock_video_20240101_120000.mkv");
    assert_eq!(screen_recording_filename("20240101_120000"), "20240101_120000.mkv");
}

#[test]
fn camera_list_resolves_each_device() {
    let devices = vec![
        (CameraIndexKind::Numeric(4), "Integrated".to_string()),
        (CameraIndexKind::Named("2".to_string()), "USB".to_string()),
        (CameraIndexKind::Named("rear".to_string()), "Rear".to_string()),
    ];
    let list = snaplock::camera_list_from_enumeration(&devices);
    assert_eq!(list.len(), 3);
    assert_eq!(list[0].id, 4);
    assert_eq!(list[0].name, "Integrated");
    assert_eq!(list[1].id, 2);
    assert_eq!(list[2].id, 2); // unparsable name falls back to its position
    assert_eq!(list[2].name, "Rear");
}
