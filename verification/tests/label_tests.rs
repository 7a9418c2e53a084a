use escucha::strip_device_prefix;

#[test]
fn bridge_test_strip_device_prefix() {
    assert_eq!(
        strip_device_prefix("/dev/input/event5 - AT Translated Set 2 keyboard"),
        "AT Translated Set 2 keyboard"
    );
    assert_eq!(
        strip_device_prefix("Some Device Without Prefix"),
        "Some Device Without Prefix"
    );
    assert_eq!(strip_device_prefix(""), "");
}

#[test]
fn gui_test_strip_device_prefix() {
    assert_eq!(
        strip_device_prefix("/dev/input/event5 - AT Translated Set 2 keyboard"),
        "AT Translated Set 2 keyboard"
    );
    assert_eq!(
        strip_device_prefix("Some Device Without Prefix"),
        "Some Device Without Prefix"
    );
    assert_eq!(strip_device_prefix(""), "");
}
