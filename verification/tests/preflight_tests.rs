use escucha::paste::EnvProbe;
use escucha::preflight::{
    check_arecord, check_curl, check_input_access, check_paste_tool, CheckResult, CheckSeverity,
    PreflightReport,
};

fn pass(name: &str) -> CheckResult {
    CheckResult {
        name: name.to_string(),
        passed: true,
        severity: CheckSeverity::Critical,
        message: "ok".into(),
        hint: None,
    }
}

fn fail(name: &str, severity: CheckSeverity) -> CheckResult {
    CheckResult {
        name: name.to_string(),
        passed: false,
        severity,
        message: "bad".into(),
        hint: Some("fix it".into()),
    }
}

#[test]
fn test_no_failures() {
    let report = PreflightReport {
        checks: vec![pass("a"), pass("b")],
    };
    assert!(!report.has_critical_failures());
    assert!(!report.has_warnings());
    assert!(report.critical_failure_summary().is_empty());
}

#[test]
fn test_critical_failure() {
    let report = PreflightReport {
        checks: vec![pass("a"), fail("input", CheckSeverity::Critical)],
    };
    assert!(report.has_critical_failures());
    assert!(!report.has_warnings());
    assert_eq!(report.critical_failure_summary(), "Setup required: input");
}

#[test]
fn test_warning_only() {
    let report = PreflightReport {
        checks: vec![pass("a"), fail("curl", CheckSeverity::Warning)],
    };
    assert!(!report.has_critical_failures());
    assert!(report.has_warnings());
}

#[test]
fn test_multiple_critical_failures() {
    let report = PreflightReport {
        checks: vec![
            fail("input", CheckSeverity::Critical),
            fail("arecord", CheckSeverity::Critical),
        ],
    };
    assert_eq!(
        report.critical_failure_summary(),
        "Setup required: input, arecord"
    );
}

#[test]
fn test_format_report_pass() {
    let report = PreflightReport {
        checks: vec![pass("arecord")],
    };
    let output = report.render();
    assert!(output.contains("PASS"));
    assert!(output.contains("arecord"));
}

#[test]
fn test_format_report_fail_with_hint() {
    let report = PreflightReport {
        checks: vec![fail("input", CheckSeverity::Critical)],
    };
    let output = report.render();
    assert!(output.contains("FAIL"));
    assert!(output.contains("hint:"));
}

#[test]
fn test_check_arecord_outcomes() {
    let found = check_arecord(Some("/usr/bin/arecord".to_string()));
    assert!(found.passed);
    assert_eq!(found.message, "Found at /usr/bin/arecord");
    assert!(found.hint.is_none());

    let missing = check_arecord(None);
    assert!(!missing.passed);
    assert_eq!(missing.severity, CheckSeverity::Critical);
    assert_eq!(missing.hint.as_deref(), Some("Install alsa-utils"));
}

#[test]
fn test_check_curl_not_needed_when_model_cached() {
    let r = check_curl(true, None);
    assert!(r.passed);
    assert_eq!(r.message, "Not needed (model already downloaded)");

    let r = check_curl(false, None);
    assert!(!r.passed);
    assert_eq!(r.severity, CheckSeverity::Warning);
}

#[test]
fn test_check_paste_tool_outcomes() {
    let wayland_wtype = EnvProbe {
        wayland: true,
        x11: false,
        has_ydotool: false,
        ydotool_usable: false,
        has_wtype: true,
        has_wl_copy: false,
        has_xdotool: false,
    };
    let r = check_paste_tool(&wayland_wtype);
    assert!(r.passed);
    assert_eq!(r.message, "wtype available (Wayland)");

    let headless = EnvProbe {
        wayland: false,
        x11: false,
        has_ydotool: false,
        ydotool_usable: false,
        has_wtype: false,
        has_wl_copy: false,
        has_xdotool: false,
    };
    let r = check_paste_tool(&headless);
    assert!(r.passed);
    assert_eq!(r.severity, CheckSeverity::Warning);

    let bare_x11 = EnvProbe {
        wayland: false,
        x11: true,
        has_ydotool: false,
        ydotool_usable: false,
        has_wtype: false,
        has_wl_copy: false,
        has_xdotool: false,
    };
    let r = check_paste_tool(&bare_x11);
    assert!(!r.passed);
    assert_eq!(r.message, "No paste tool found");
    assert_eq!(r.hint.as_deref(), Some("Install xdotool"));
}

#[test]
fn test_render_exact_lines() {
    let report = PreflightReport {
        checks: vec![pass("arecord"), fail("input", CheckSeverity::Critical)],
    };
    let expected = format!(
        "escucha environment check:\n  [ PASS] {:<14} ok\n  [ FAIL] {:<14} bad\n  {:>6} {:<14} hint: fix it\n",
        "arecord", "input", "", ""
    );
    assert_eq!(report.render(), expected);
}

#[test]
fn test_check_input_access_outcomes() {
    let unreadable = check_input_access(false, &vec![]);
    assert!(!unreadable.passed);
    assert_eq!(unreadable.message, "Cannot read /dev/input");

    let one_openable = check_input_access(
        true,
        &vec![
            ("/dev/input/event0".to_string(), false),
            ("/dev/input/event1".to_string(), true),
        ],
    );
    assert!(one_openable.passed);
    assert_eq!(one_openable.message, "Can access /dev/input/event1");
    assert!(one_openable.hint.is_none());

    let none_openable = check_input_access(true, &vec![("/dev/input/event0".to_string(), false)]);
    assert!(!none_openable.passed);
    assert_eq!(
        none_openable.message,
        "No input devices accessible (permission denied)"
    );
    assert_eq!(
        none_openable.hint.as_deref(),
        Some("sudo usermod -aG input $USER  (then log out and back in)")
    );
}
