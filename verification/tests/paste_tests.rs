use escucha::paste::{
    key_name_to_code, parse_hotkey_to_wtype, parse_hotkey_to_ydotool, paste_plan,
    pick_paste_method, should_use_clipboard, EnvProbe, PasteConfig, PasteMethod, PastePlan,
};

fn no_env() -> EnvProbe {
    EnvProbe {
        wayland: false,
        x11: false,
        has_ydotool: false,
        ydotool_usable: false,
        has_wtype: false,
        has_wl_copy: false,
        has_xdotool: false,
    }
}

#[test]
fn test_paste_method_display() {
    assert_eq!(PasteMethod::Xdotool.as_str(), "xdotool");
    assert_eq!(PasteMethod::Wtype.as_str(), "wtype");
    assert_eq!(PasteMethod::Ydotool.as_str(), "ydotool");
    assert_eq!(PasteMethod::WlCopy.as_str(), "wl-copy");
}

#[test]
fn test_pick_paste_method_explicit() {
    let env = no_env();
    assert_eq!(
        pick_paste_method("xdotool", &env).unwrap(),
        PasteMethod::Xdotool
    );
    assert_eq!(pick_paste_method("wtype", &env).unwrap(), PasteMethod::Wtype);
    assert_eq!(
        pick_paste_method("ydotool", &env).unwrap(),
        PasteMethod::Ydotool
    );
    assert_eq!(
        pick_paste_method("wl-copy", &env).unwrap(),
        PasteMethod::WlCopy
    );
}

#[test]
fn test_pick_paste_method_wayland_prefers_ydotool() {
    let env = EnvProbe {
        wayland: true,
        has_ydotool: true,
        ydotool_usable: true,
        has_wtype: true,
        has_wl_copy: true,
        ..no_env()
    };
    assert_eq!(pick_paste_method("auto", &env).unwrap(), PasteMethod::Ydotool);
}

#[test]
fn test_pick_paste_method_wayland_falls_back_to_wtype_then_wl_copy() {
    let env = EnvProbe {
        wayland: true,
        has_wtype: true,
        has_wl_copy: true,
        ..no_env()
    };
    assert_eq!(pick_paste_method("auto", &env).unwrap(), PasteMethod::Wtype);

    let env = EnvProbe {
        wayland: true,
        has_wl_copy: true,
        ..no_env()
    };
    assert_eq!(pick_paste_method("auto", &env).unwrap(), PasteMethod::WlCopy);
}

#[test]
fn test_pick_paste_method_x11() {
    let env = EnvProbe {
        x11: true,
        has_xdotool: true,
        ..no_env()
    };
    assert_eq!(pick_paste_method("auto", &env).unwrap(), PasteMethod::Xdotool);
}

#[test]
fn test_pick_paste_method_nothing_available() {
    let err = pick_paste_method("auto", &no_env()).unwrap_err();
    assert_eq!(
        err.message(),
        "No paste tool found. Install ydotool + wl-copy (Wayland) or xdotool (X11)."
    );
}

#[test]
fn test_parse_hotkey_to_ydotool_ctrl_v() {
    let args = parse_hotkey_to_ydotool("ctrl+v");
    // Press Ctrl, press V, release V, release Ctrl
    assert_eq!(args, vec!["29:1", "47:1", "47:0", "29:0"]);
}

#[test]
fn test_parse_hotkey_to_ydotool_ctrl_shift_v() {
    let args = parse_hotkey_to_ydotool("ctrl+shift+v");
    assert_eq!(args, vec!["29:1", "42:1", "47:1", "47:0", "42:0", "29:0"]);
}

#[test]
fn test_parse_hotkey_ctrl_v_wtype() {
    let args = parse_hotkey_to_wtype("ctrl+v");
    assert_eq!(args, vec!["-M", "ctrl", "-k", "v", "-m", "ctrl"]);
}

#[test]
fn test_parse_hotkey_ctrl_shift_v_wtype() {
    let args = parse_hotkey_to_wtype("ctrl+shift+v");
    assert_eq!(
        args,
        vec![
            "-M", "ctrl", "-M", "shift", "-k", "v", "-m", "shift", "-m", "ctrl"
        ]
    );
}

#[test]
fn test_key_name_to_code_known_and_unknown() {
    assert_eq!(key_name_to_code("ctrl"), Some("29"));
    assert_eq!(key_name_to_code("SHIFT"), Some("42"));
    assert_eq!(key_name_to_code("meta"), Some("125"));
    assert_eq!(key_name_to_code("pedal"), None);
}

#[test]
fn test_should_use_clipboard() {
    assert!(should_use_clipboard("auto"));
    assert!(should_use_clipboard("on"));
    assert!(!should_use_clipboard("off"));
}

#[test]
fn test_paste_config_clone() {
    let config = PasteConfig {
        method: PasteMethod::Xdotool,
        hotkey: "ctrl+v".into(),
        clipboard_paste: "auto".into(),
        clipboard_paste_delay_ms: 75,
    };
    let cloned = config.clone();
    assert_eq!(cloned.method, PasteMethod::Xdotool);
    assert_eq!(cloned.hotkey, "ctrl+v");
}

fn config(method: PasteMethod, clipboard: &str) -> PasteConfig {
    PasteConfig {
        method,
        hotkey: "ctrl+v".into(),
        clipboard_paste: clipboard.into(),
        clipboard_paste_delay_ms: 75,
    }
}

#[test]
fn test_paste_plan_xdotool_direct_pads_text() {
    let plan = paste_plan("hello", &config(PasteMethod::Xdotool, "off"));
    match plan {
        PastePlan::Direct { cmd, fallback } => {
            assert_eq!(cmd.program, "xdotool");
            assert_eq!(cmd.args, vec!["type", "--delay", "1", "hello "]);
            assert!(cmd.stdin_text.is_none());
            assert!(fallback.is_none());
        }
        _ => panic!("expected a direct plan"),
    }
}

#[test]
fn test_paste_plan_xdotool_clipboard_route() {
    let plan = paste_plan("hi", &config(PasteMethod::Xdotool, "auto"));
    match plan {
        PastePlan::Clipboard(steps) => {
            assert_eq!(steps.copy.program, "xclip");
            assert_eq!(steps.copy.args, vec!["-selection", "clipboard"]);
            assert_eq!(steps.copy.stdin_text.as_deref(), Some("hi "));
            assert_eq!(steps.delay_ms, 75);
            assert_eq!(steps.key.program, "xdotool");
            assert_eq!(steps.key.args, vec!["key", "ctrl+v"]);
            assert!(steps.key_failure_fatal);
        }
        _ => panic!("expected a clipboard plan"),
    }
}

#[test]
fn test_paste_plan_wtype_direct_with_fallback() {
    let plan = paste_plan("hi", &config(PasteMethod::Wtype, "off"));
    match plan {
        PastePlan::Direct { cmd, fallback } => {
            assert_eq!(cmd.program, "wtype");
            assert_eq!(cmd.args, vec!["hi "]);
            let steps = fallback.expect("wtype keeps a clipboard fallback");
            assert_eq!(steps.copy.program, "wl-copy");
            assert_eq!(steps.copy.args, vec!["hi "]);
            assert_eq!(steps.key.program, "wtype");
            assert_eq!(steps.key.args, vec!["-M", "ctrl", "-k", "v", "-m", "ctrl"]);
            assert!(!steps.key_failure_fatal);
        }
        _ => panic!("expected a direct plan"),
    }
}

#[test]
fn test_paste_plan_ydotool_clipboard_route() {
    let plan = paste_plan("hi", &config(PasteMethod::Ydotool, "on"));
    match plan {
        PastePlan::Clipboard(steps) => {
            assert_eq!(steps.copy.program, "wl-copy");
            assert_eq!(steps.key.program, "ydotool");
            assert_eq!(
                steps.key.args,
                vec!["key", "29:1", "47:1", "47:0", "29:0"]
            );
            assert!(steps.key_failure_fatal);
        }
        _ => panic!("expected a clipboard plan"),
    }
}

#[test]
fn test_paste_plan_wl_copy_only() {
    let plan = paste_plan("hi", &config(PasteMethod::WlCopy, "off"));
    match plan {
        PastePlan::CopyOnly(cmd) => {
            assert_eq!(cmd.program, "wl-copy");
            assert_eq!(cmd.args, vec!["hi "]);
        }
        _ => panic!("expected a copy-only plan"),
    }
}
