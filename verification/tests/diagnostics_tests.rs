use escucha::diagnostics::{
    collect_preflight, diagnose_ok, smoke_passed, step_fail, step_pass, step_skip, SmokeTestInfo,
};
use escucha::preflight::{CheckResult, CheckSeverity, PreflightReport};

fn check(name: &str, passed: bool, severity: CheckSeverity) -> CheckResult {
    CheckResult {
        name: name.to_string(),
        passed,
        severity,
        message: "m".into(),
        hint: None,
    }
}

#[test]
fn collect_preflight_counts_failures() {
    let report = PreflightReport {
        checks: vec![
            check("a", true, CheckSeverity::Critical),
            check("b", false, CheckSeverity::Critical),
            check("c", false, CheckSeverity::Warning),
            check("d", false, CheckSeverity::Critical),
        ],
    };
    let info = collect_preflight(&report);
    assert_eq!(info.critical_failures, 2);
    assert_eq!(info.warnings, 1);
    assert_eq!(info.checks.len(), 4);
    assert_eq!(info.checks[1].name, "b");
    assert_eq!(info.checks[1].severity, "critical");
    assert_eq!(info.checks[2].severity, "warning");
}

#[test]
fn smoke_steps_carry_their_status() {
    let p = step_pass("load_settings", true, "ok".to_string(), 3);
    assert_eq!(p.status, "pass");
    assert_eq!(p.name, "load_settings");
    assert!(p.required);
    assert_eq!(p.duration_ms, 3);

    let f = step_fail("resolve_trigger_key", true, "bad".to_string(), 0);
    assert_eq!(f.status, "fail");

    let s = step_skip("transcription_probe", false, "no model".to_string(), 1);
    assert_eq!(s.status, "skip");
    assert!(!s.required);
}

#[test]
fn smoke_test_passes_when_required_steps_pass() {
    let steps = vec![
        step_pass("a", true, "ok".to_string(), 0),
        step_skip("b", false, "skipped".to_string(), 0),
    ];
    assert!(smoke_passed(&steps));

    let steps = vec![
        step_pass("a", true, "ok".to_string(), 0),
        step_fail("b", true, "bad".to_string(), 0),
    ];
    assert!(!smoke_passed(&steps));

    let steps = vec![step_fail("b", false, "bad but optional".to_string(), 0)];
    assert!(smoke_passed(&steps));
}

#[test]
fn diagnose_verdict_combines_preflight_and_smoke() {
    assert!(diagnose_ok(0, &None));
    assert!(!diagnose_ok(1, &None));

    let passing = SmokeTestInfo {
        duration_ms: 5,
        passed: true,
        steps: vec![],
    };
    let failing = SmokeTestInfo {
        duration_ms: 5,
        passed: false,
        steps: vec![],
    };
    assert!(diagnose_ok(0, &Some(passing)));
    assert!(!diagnose_ok(0, &Some(failing)));
}
