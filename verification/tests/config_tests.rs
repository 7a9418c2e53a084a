use escucha::config::{config_path, settings_from_ini_text, settings_from_pairs, Settings};

#[test]
fn test_default_settings() {
    let s = Settings::default();
    assert_eq!(s.key, "KEY_RIGHTCTRL");
    assert_eq!(s.keyboard_device, "auto");
    assert_eq!(s.model, "base.en");
    assert_eq!(s.language, "en");
    assert_eq!(s.paste_method, "auto");
    assert_eq!(s.paste_hotkey, "ctrl+v");
    assert_eq!(s.clipboard_paste, "auto");
    assert_eq!(s.clipboard_paste_delay_ms, 75);
    assert_eq!(s.log_level, "info");
}

#[test]
fn test_load_partial_config() {
    let text = "[escucha]\nkey=KEY_CAPSLOCK\nmodel=large\n";
    let settings = settings_from_ini_text(text).unwrap();
    assert_eq!(settings.key, "KEY_CAPSLOCK");
    assert_eq!(settings.model, "large");
    // Defaults for unset values
    assert_eq!(settings.language, "en");
    assert_eq!(settings.paste_method, "auto");
}

#[test]
fn test_load_full_config() {
    let text = "[escucha]\n\
                key=KEY_RIGHTCTRL\n\
                keyboard_device=/dev/input/event5\n\
                model=small.en\n\
                language=es\n\
                paste_method=xdotool\n\
                paste_hotkey=ctrl+shift+v\n\
                clipboard_paste=off\n\
                clipboard_paste_delay_ms=100\n\
                log_file=/tmp/test.log\n\
                log_level=debug\n";
    let settings = settings_from_ini_text(text).unwrap();
    assert_eq!(settings.key, "KEY_RIGHTCTRL");
    assert_eq!(settings.keyboard_device, "/dev/input/event5");
    assert_eq!(settings.model, "small.en");
    assert_eq!(settings.language, "es");
    assert_eq!(settings.paste_method, "xdotool");
    assert_eq!(settings.paste_hotkey, "ctrl+shift+v");
    assert_eq!(settings.clipboard_paste, "off");
    assert_eq!(settings.clipboard_paste_delay_ms, 100);
    assert_eq!(settings.log_file, "/tmp/test.log");
    assert_eq!(settings.log_level, "debug");
}

#[test]
fn test_invalid_u32_falls_back_to_default() {
    let text = "[escucha]\nclipboard_paste_delay_ms=\n";
    let settings = settings_from_ini_text(text).unwrap();
    assert_eq!(settings.clipboard_paste_delay_ms, 75);
}

#[test]
fn test_missing_section_gives_defaults() {
    let settings = settings_from_ini_text("[other]\nkey=KEY_F5\n").unwrap();
    assert_eq!(settings.key, "KEY_RIGHTCTRL");
    assert_eq!(settings.model, "base.en");
}

#[test]
fn test_malformed_ini_is_rejected() {
    let result = settings_from_ini_text("[escucha\nkey KEY_F5");
    assert!(result.is_err());
}

#[test]
fn test_settings_from_pairs_first_value_wins() {
    let pairs = vec![
        ("model".to_string(), "small.en".to_string()),
        ("model".to_string(), "large".to_string()),
    ];
    let settings = settings_from_pairs(&pairs);
    assert_eq!(settings.model, "small.en");
}

#[test]
fn test_config_path_location() {
    let path = config_path();
    assert!(path.ends_with("/escucha/config.ini"));
}
