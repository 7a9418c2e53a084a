//! Structured diagnostics.
//!
//! The diagnostic command gathers facts about the environment, permissions,
//! preflight results, logs and an optional smoke test into one report. The
//! gathering is I/O and belongs to the driver; the judgments — summarizing
//! the preflight report, shaping smoke-test steps, deciding overall success
//! — are made here.

use vstd::prelude::*;

use crate::preflight::{crit_fail, warn_fail, CheckResult, CheckSeverity, PreflightReport};

verus! {

/// The environment section of a report: session variables and which helper
/// commands and user services are present.
#[derive(Debug, Clone)]
pub struct EnvironmentInfo {
    pub wayland_display: Option<String>,
    pub x11_display: Option<String>,
    pub xdg_session_type: Option<String>,
    pub xdg_current_desktop: Option<String>,
    pub command_available: Vec<(String, bool)>,
    pub user_service_state: Vec<(String, String)>,
}

/// The permissions section: input-group membership and device readability.
#[derive(Debug, Clone)]
pub struct PermissionInfo {
    pub user: String,
    pub input_group_configured: bool,
    pub input_group_active_in_process: bool,
    pub readable_input_devices: usize,
    pub total_input_devices: usize,
    pub ydotool_socket_available: bool,
}

/// One preflight check, flattened for the report.
#[derive(Debug, Clone)]
pub struct PreflightCheckInfo {
    pub name: String,
    pub passed: bool,
    pub severity: String,
    pub message: String,
    pub hint: Option<String>,
}

/// The preflight section: failure counts and the flattened checks.
#[derive(Debug, Clone)]
pub struct PreflightInfo {
    pub critical_failures: usize,
    pub warnings: usize,
    pub checks: Vec<PreflightCheckInfo>,
}

/// The log section: the configured log file and its last lines.
#[derive(Debug, Clone)]
pub struct LogInfo {
    pub configured_log_file: Option<String>,
    pub log_file_exists: bool,
    pub tail_lines: Vec<String>,
}

/// One smoke-test step: name, whether it gates the verdict, its status
/// ("pass", "fail" or "skip"), detail text and duration.
#[derive(Debug, Clone)]
pub struct SmokeStepInfo {
    pub name: String,
    pub required: bool,
    pub status: String,
    pub detail: String,
    pub duration_ms: u128,
}

/// The smoke-test section: duration, verdict and steps.
#[derive(Debug, Clone)]
pub struct SmokeTestInfo {
    pub duration_ms: u128,
    pub passed: bool,
    pub steps: Vec<SmokeStepInfo>,
}

/// One whole diagnostic report.
#[derive(Debug, Clone)]
pub struct DiagnoseReport {
    pub schema_version: u32,
    pub app_version: String,
    pub command: String,
    pub unix_timestamp_ms: u128,
    pub ok: bool,
    pub environment: EnvironmentInfo,
    pub permissions: PermissionInfo,
    pub preflight: PreflightInfo,
    pub logs: LogInfo,
    pub smoke_test: Option<SmokeTestInfo>,
}

/// How many of these checks are critical failures.
pub open spec fn count_crit(checks: Seq<CheckResult>) -> int
    decreases checks.len(),
{
    if checks.len() == 0 {
        0
    } else {
        count_crit(checks.drop_last()) + (if crit_fail(checks.last()) {
            1int
        } else {
            0int
        })
    }
}

/// How many of these checks are warnings.
pub open spec fn count_warn(checks: Seq<CheckResult>) -> int
    decreases checks.len(),
{
    if checks.len() == 0 {
        0
    } else {
        count_warn(checks.drop_last()) + (if warn_fail(checks.last()) {
            1int
        } else {
            0int
        })
    }
}

/// The flattened form of one preflight check.
pub open spec fn check_info_matches(info: PreflightCheckInfo, c: CheckResult) -> bool {
    &&& info.name@ == c.name@
    &&& info.passed == c.passed
    &&& info.severity@ == (if c.severity == CheckSeverity::Critical {
        "critical"@
    } else {
        "warning"@
    })
    &&& info.message@ == c.message@
    &&& match (info.hint, c.hint) {
        (Some(a), Some(b)) => a@ == b@,
        (None, None) => true,
        _ => false,
    }
}

/// Summarize a preflight report for the diagnostic output: count its
/// critical failures and warnings and flatten each check.
pub fn collect_preflight(report: &PreflightReport) -> (r: PreflightInfo)
    ensures
        r.critical_failures == count_crit(report.checks@),
        r.warnings == count_warn(report.checks@),
        r.checks@.len() == report.checks@.len(),
        forall|i: int|
            0 <= i < report.checks@.len() ==> check_info_matches(
                #[trigger] r.checks@[i],
                report.checks@[i],
            ),
{
    let n = report.checks.len();
    let mut crit: usize = 0;
    let mut warn: usize = 0;
    let mut infos: Vec<PreflightCheckInfo> = Vec::new();
    let mut i: usize = 0;
    while i < n
        invariant
            i <= n,
            n == report.checks@.len(),
            crit == count_crit(report.checks@.take(i as int)),
            warn == count_warn(report.checks@.take(i as int)),
            crit <= i,
            warn <= i,
            infos@.len() == i,
            forall|j: int|
                0 <= j < i ==> check_info_matches(#[trigger] infos@[j], report.checks@[j]),
        decreases n - i,
    {
        let c = &report.checks[i];
        proof {
            assert(report.checks@.take(i + 1).drop_last() =~= report.checks@.take(i as int));
            assert(report.checks@.take(i + 1).last() == report.checks@[i as int]);
        }
        if !c.passed && c.severity == CheckSeverity::Critical {
            crit += 1;
        }
        if !c.passed && c.severity == CheckSeverity::Warning {
            warn += 1;
        }
        let severity = if c.severity == CheckSeverity::Critical {
            String::from_str("critical")
        } else {
            String::from_str("warning")
        };
        let hint = match &c.hint {
            Some(h) => Some(h.clone()),
            None => None,
        };
        infos.push(
            PreflightCheckInfo {
                name: c.name.clone(),
                passed: c.passed,
                severity,
                message: c.message.clone(),
                hint,
            },
        );
        i += 1;
    }
    proof {
        assert(report.checks@.take(n as int) =~= report.checks@);
    }
    PreflightInfo { critical_failures: crit, warnings: warn, checks: infos }
}

/// A passed smoke-test step.
pub fn step_pass(name: &str, required: bool, detail: String, elapsed_ms: u128) -> (r: SmokeStepInfo)
    ensures
        r.name@ == name@,
        r.required == required,
        r.status@ == "pass"@,
        r.detail@ == detail@,
        r.duration_ms == elapsed_ms,
{
    SmokeStepInfo {
        name: name.to_owned(),
        required,
        status: String::from_str("pass"),
        detail,
        duration_ms: elapsed_ms,
    }
}

/// A failed smoke-test step.
pub fn step_fail(name: &str, required: bool, detail: String, elapsed_ms: u128) -> (r: SmokeStepInfo)
    ensures
        r.name@ == name@,
        r.required == required,
        r.status@ == "fail"@,
        r.detail@ == detail@,
        r.duration_ms == elapsed_ms,
{
    SmokeStepInfo {
        name: name.to_owned(),
        required,
        status: String::from_str("fail"),
        detail,
        duration_ms: elapsed_ms,
    }
}

/// A skipped smoke-test step.
pub fn step_skip(name: &str, required: bool, detail: String, elapsed_ms: u128) -> (r: SmokeStepInfo)
    ensures
        r.name@ == name@,
        r.required == required,
        r.status@ == "skip"@,
        r.detail@ == detail@,
        r.duration_ms == elapsed_ms,
{
    SmokeStepInfo {
        name: name.to_owned(),
        required,
        status: String::from_str("skip"),
        detail,
        duration_ms: elapsed_ms,
    }
}

/// The smoke test passes when every required step passed.
pub fn smoke_passed(steps: &Vec<SmokeStepInfo>) -> (r: bool)
    ensures
        r == forall|i: int|
            0 <= i < steps@.len() && (#[trigger] steps@[i]).required ==> steps@[i].status@
                == "pass"@,
{
    let n = steps.len();
    let mut i: usize = 0;
    while i < n
        invariant
            i <= n,
            n == steps@.len(),
            forall|j: int|
                0 <= j < i && (#[trigger] steps@[j]).required ==> steps@[j].status@ == "pass"@,
        decreases n - i,
    {
        let s = &steps[i];
        if s.required && !crate::text::str_eq(s.status.as_str(), "pass") {
            return false;
        }
        i += 1;
    }
    true
}

/// The overall verdict of a diagnostic run: no critical preflight failure,
/// and the smoke test (when one ran) passed.
pub fn diagnose_ok(critical_failures: usize, smoke_test: &Option<SmokeTestInfo>) -> (r: bool)
    ensures
        r == (critical_failures == 0 && (smoke_test matches Some(s) ==> s.passed)),
{
    let smoke_ok = match smoke_test {
        Some(s) => s.passed,
        None => true,
    };
    critical_failures == 0 && smoke_ok
}

} // verus!
