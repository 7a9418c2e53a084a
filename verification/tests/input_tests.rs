use escucha::input::{
    filter_keyboards, key_edge, pick_keyboard_device, resolve_key, DeviceCandidate, InputDevice,
    InputError, KeyEdge, WatchedKey,
};

#[test]
fn test_resolve_key_fn() {
    let key = resolve_key("KEY_FN").unwrap();
    assert_eq!(key.code(), evdev::KeyCode::KEY_FN.code());
}

#[test]
fn test_resolve_key_capslock() {
    let key = resolve_key("KEY_CAPSLOCK").unwrap();
    assert_eq!(key.code(), evdev::KeyCode::KEY_CAPSLOCK.code());
}

#[test]
fn test_resolve_key_rightctrl() {
    let key = resolve_key("KEY_RIGHTCTRL").unwrap();
    assert_eq!(key.code(), evdev::KeyCode::KEY_RIGHTCTRL.code());
}

#[test]
fn test_resolve_key_without_prefix() {
    let key = resolve_key("FN").unwrap();
    assert_eq!(key.code(), evdev::KeyCode::KEY_FN.code());
}

#[test]
fn test_resolve_key_case_insensitive() {
    let key = resolve_key("key_rightctrl").unwrap();
    assert_eq!(key.code(), evdev::KeyCode::KEY_RIGHTCTRL.code());
}

#[test]
fn test_resolve_key_unknown() {
    assert!(resolve_key("KEY_NONEXISTENT").is_err());
}

#[test]
fn test_resolve_key_unknown_message() {
    let err = resolve_key("KEY_NONEXISTENT").unwrap_err();
    assert_eq!(err.message(), "Unknown key name: KEY_NONEXISTENT");
}

#[test]
fn test_resolve_function_keys() {
    for i in 1..=12 {
        let name = format!("KEY_F{i}");
        assert!(resolve_key(&name).is_ok(), "Failed to resolve {name}");
    }
}

#[test]
fn test_filter_keyboards() {
    let devices = vec![
        InputDevice {
            path: "/dev/input/event0".into(),
            name: "AT Translated Set 2 keyboard".into(),
        },
        InputDevice {
            path: "/dev/input/event1".into(),
            name: "SynPS/2 Synaptics TouchPad".into(),
        },
        InputDevice {
            path: "/dev/input/event2".into(),
            name: "TPPS/2 Elan TrackPoint".into(),
        },
        InputDevice {
            path: "/dev/input/event3".into(),
            name: "USB Mouse".into(),
        },
        InputDevice {
            path: "/dev/input/event4".into(),
            name: "ThinkPad Extra Buttons".into(),
        },
    ];

    let keyboards = filter_keyboards(&devices);
    assert_eq!(keyboards.len(), 2);
    assert_eq!(keyboards[0].name, "AT Translated Set 2 keyboard");
    assert_eq!(keyboards[1].name, "ThinkPad Extra Buttons");
}

#[test]
fn test_filter_keyboards_empty() {
    let devices: Vec<InputDevice> = vec![];
    let keyboards = filter_keyboards(&devices);
    assert!(keyboards.is_empty());
}

#[test]
fn test_pick_keyboard_device_explicit_missing() {
    let result = pick_keyboard_device("/dev/input/event9999", false, &vec![]);
    assert!(result.is_err());
    assert_eq!(
        result.unwrap_err(),
        InputError::DeviceNotFound("/dev/input/event9999".to_string())
    );
}

#[test]
fn test_pick_keyboard_device_explicit_present() {
    let result = pick_keyboard_device("/dev/input/event3", true, &vec![]);
    assert_eq!(result.unwrap(), "/dev/input/event3");
}

fn candidate(path: &str, name: &str, supports_key: bool) -> DeviceCandidate {
    DeviceCandidate {
        path: path.to_string(),
        name: name.to_string(),
        supports_key,
    }
}

#[test]
fn test_auto_pick_prefers_supporting_device_either_order() {
    let a = candidate("/dev/input/event0", "Keyboard A", false);
    let b = candidate("/dev/input/event1", "Keyboard B", true);

    let picked = pick_keyboard_device("auto", false, &vec![a.clone(), b.clone()]).unwrap();
    assert_eq!(picked, "/dev/input/event1");

    let picked = pick_keyboard_device("auto", false, &vec![b, a]).unwrap();
    assert_eq!(picked, "/dev/input/event1");
}

#[test]
fn test_auto_pick_skips_pointer_devices() {
    let mouse = candidate("/dev/input/event0", "USB Mouse", true);
    let kb = candidate("/dev/input/event1", "Plain Keyboard", true);
    let picked = pick_keyboard_device("auto", false, &vec![mouse, kb]).unwrap();
    assert_eq!(picked, "/dev/input/event1");
}

#[test]
fn test_auto_pick_falls_back_to_first_keyboard() {
    let a = candidate("/dev/input/event0", "Keyboard A", false);
    let b = candidate("/dev/input/event1", "Keyboard B", false);
    let picked = pick_keyboard_device("auto", false, &vec![a, b]).unwrap();
    assert_eq!(picked, "/dev/input/event0");
}

#[test]
fn test_auto_pick_no_devices() {
    let mouse = candidate("/dev/input/event0", "USB Mouse", true);
    let result = pick_keyboard_device("auto", false, &vec![mouse]);
    assert_eq!(result.unwrap_err(), InputError::NoDevices);
}

#[test]
fn test_key_edge_filter() {
    let watched = WatchedKey(97);
    assert_eq!(key_edge(watched, 97, 1), Some(KeyEdge::Press));
    assert_eq!(key_edge(watched, 97, 0), Some(KeyEdge::Release));
    // Autorepeat pseudo-events are dropped.
    assert_eq!(key_edge(watched, 97, 2), None);
    // Other keys are dropped whatever their value.
    assert_eq!(key_edge(watched, 30, 1), None);
    assert_eq!(key_edge(watched, 30, 0), None);
}
