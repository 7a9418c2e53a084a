//! Preflight environment checks.
//!
//! Before a session starts, the environment is checked: input-device
//! access, the recorder binary, a paste tool, the downloader, writable
//! directories. The probes themselves are I/O and belong to the driver;
//! judging the probe results and reporting them is done here. A critical
//! failure is equivalent to a startup failure.

use vstd::prelude::*;

use crate::paste::EnvProbe;
use crate::text::{join, join_spec, make_spaces, spaces};

verus! {

/// How bad a failed check is.
#[derive(Debug, Clone, Copy, PartialEq, Eq, Structural)]
pub enum CheckSeverity {
    /// Must pass or the session cannot function.
    Critical,
    /// The session can work, with reduced functionality.
    Warning,
}

/// The result of one preflight check.
#[derive(Debug, Clone)]
pub struct CheckResult {
    pub name: String,
    pub passed: bool,
    pub severity: CheckSeverity,
    pub message: String,
    pub hint: Option<String>,
}

/// A check that failed and must pass.
pub open spec fn crit_fail(c: CheckResult) -> bool {
    !c.passed && c.severity == CheckSeverity::Critical
}

/// A check that failed but only costs functionality.
pub open spec fn warn_fail(c: CheckResult) -> bool {
    !c.passed && c.severity == CheckSeverity::Warning
}

/// The collected results of all preflight checks.
pub struct PreflightReport {
    pub checks: Vec<CheckResult>,
}

/// The names of the critical failures, in report order.
pub open spec fn crit_names(checks: Seq<CheckResult>) -> Seq<Seq<char>>
    decreases checks.len(),
{
    if checks.len() == 0 {
        seq![]
    } else {
        crit_names(checks.drop_last()) + (if crit_fail(checks.last()) {
            seq![checks.last().name@]
        } else {
            seq![]
        })
    }
}

/// The one-line summary of the critical failures: empty when there are
/// none, otherwise their names joined after "Setup required: ".
pub open spec fn summary_spec(checks: Seq<CheckResult>) -> Seq<char> {
    if crit_names(checks).len() == 0 {
        Seq::<char>::empty()
    } else {
        "Setup required: "@ + join_spec(crit_names(checks), ", "@)
    }
}

impl PreflightReport {
    /// Some check that must pass failed.
    pub fn has_critical_failures(&self) -> (r: bool)
        ensures
            r == exists|i: int| 0 <= i < self.checks@.len() && crit_fail(#[trigger] self.checks@[i]),
    {
        let n = self.checks.len();
        let mut i: usize = 0;
        while i < n
            invariant
                i <= n,
                n == self.checks@.len(),
                forall|j: int| 0 <= j < i ==> !crit_fail(#[trigger] self.checks@[j]),
            decreases n - i,
        {
            let c = &self.checks[i];
            if !c.passed && c.severity == CheckSeverity::Critical {
                return true;
            }
            i += 1;
        }
        false
    }

    /// Some non-critical check failed.
    pub fn has_warnings(&self) -> (r: bool)
        ensures
            r == exists|i: int| 0 <= i < self.checks@.len() && warn_fail(#[trigger] self.checks@[i]),
    {
        let n = self.checks.len();
        let mut i: usize = 0;
        while i < n
            invariant
                i <= n,
                n == self.checks@.len(),
                forall|j: int| 0 <= j < i ==> !warn_fail(#[trigger] self.checks@[j]),
            decreases n - i,
        {
            let c = &self.checks[i];
            if !c.passed && c.severity == CheckSeverity::Warning {
                return true;
            }
            i += 1;
        }
        false
    }

    /// A short summary of the critical failures, empty when there are none.
    pub fn critical_failure_summary(&self) -> (r: String)
        ensures
            r@ == summary_spec(self.checks@),
    {
        let n = self.checks.len();
        let mut names: Vec<String> = Vec::new();
        let mut i: usize = 0;
        while i < n
            invariant
                i <= n,
                n == self.checks@.len(),
                names.deep_view() =~= crit_names(self.checks@.take(i as int)),
            decreases n - i,
        {
            let c = &self.checks[i];
            if !c.passed && c.severity == CheckSeverity::Critical {
                names.push(c.name.clone());
            }
            proof {
                assert(self.checks@.take(i + 1).drop_last() =~= self.checks@.take(i as int));
                assert(self.checks@.take(i + 1).last() == self.checks@[i as int]);
                assert(names.deep_view() =~= crit_names(self.checks@.take(i + 1)));
            }
            i += 1;
        }
        proof {
            assert(self.checks@.take(n as int) =~= self.checks@);
        }
        if names.len() == 0 {
            return String::new();
        }
        let joined = join(&names, ", ");
        let mut out = String::new();
        out.append("Setup required: ");
        out.append(joined.as_str());
        proof {
            assert(out@ =~= "Setup required: "@ + join_spec(crit_names(self.checks@), ", "@));
        }
        out
    }
}

/// The tag one check is printed with.
pub open spec fn check_tag(c: CheckResult) -> Seq<char> {
    if c.passed {
        " PASS"@
    } else if c.severity == CheckSeverity::Critical {
        " FAIL"@
    } else {
        " WARN"@
    }
}

/// A name padded to the report's column width.
pub open spec fn pad14(s: Seq<char>) -> Seq<char> {
    if s.len() >= 14 {
        s
    } else {
        s + spaces(14 - s.len())
    }
}

/// One check's line (and hint line, if it has a hint) in the rendered
/// report.
pub open spec fn render_check(c: CheckResult) -> Seq<char> {
    "  ["@ + check_tag(c) + "] "@ + pad14(c.name@) + " "@ + c.message@ + "\n"@ + match c.hint {
        Some(h) => "  "@ + spaces(6) + " "@ + spaces(14) + " hint: "@ + h@ + "\n"@,
        None => Seq::<char>::empty(),
    }
}

/// The check lines of the rendered report, in order.
pub open spec fn render_checks(checks: Seq<CheckResult>) -> Seq<char>
    decreases checks.len(),
{
    if checks.len() == 0 {
        Seq::<char>::empty()
    } else {
        render_checks(checks.drop_last()) + render_check(checks.last())
    }
}

/// The whole rendered report.
pub open spec fn render_report_spec(checks: Seq<CheckResult>) -> Seq<char> {
    "escucha environment check:\n"@ + render_checks(checks)
}

fn render_one(c: &CheckResult) -> (r: String)
    ensures
        r@ == render_check(*c),
{
    let mut out = String::new();
    out.append("  [");
    if c.passed {
        out.append(" PASS");
    } else if c.severity == CheckSeverity::Critical {
        out.append(" FAIL");
    } else {
        out.append(" WARN");
    }
    out.append("] ");
    let padded = pad_name(c.name.as_str());
    out.append(padded.as_str());
    out.append(" ");
    out.append(c.message.as_str());
    out.append("\n");
    match &c.hint {
        Some(h) => {
            out.append("  ");
            let six = make_spaces(6);
            out.append(six.as_str());
            out.append(" ");
            let fourteen = make_spaces(14);
            out.append(fourteen.as_str());
            out.append(" hint: ");
            out.append(h.as_str());
            out.append("\n");
        },
        None => {},
    }
    proof {
        assert(out@ =~= render_check(*c));
    }
    out
}

fn pad_name(name: &str) -> (r: String)
    ensures
        r@ == pad14(name@),
{
    let n = name.unicode_len();
    let mut out = name.to_owned();
    if n < 14 {
        let pad = make_spaces(14 - n);
        out.append(pad.as_str());
    }
    out
}

impl PreflightReport {
    /// Render the report as the check command prints it: one tagged line
    /// per check, with an indented hint line after each failed check that
    /// has a hint.
    pub fn render(&self) -> (r: String)
        ensures
            r@ == render_report_spec(self.checks@),
    {
        let mut out = String::new();
        out.append("escucha environment check:\n");
        let n = self.checks.len();
        let mut i: usize = 0;
        while i < n
            invariant
                i <= n,
                n == self.checks@.len(),
                out@ =~= "escucha environment check:\n"@ + render_checks(
                    self.checks@.take(i as int),
                ),
            decreases n - i,
        {
            let c = &self.checks[i];
            let line = render_one(c);
            out.append(line.as_str());
            proof {
                assert(self.checks@.take(i + 1).drop_last() =~= self.checks@.take(i as int));
                assert(self.checks@.take(i + 1).last() == self.checks@[i as int]);
                assert(out@ =~= "escucha environment check:\n"@ + render_checks(
                    self.checks@.take(i + 1),
                ));
            }
            i += 1;
        }
        proof {
            assert(self.checks@.take(n as int) =~= self.checks@);
        }
        out
    }
}


/// The mathematical value of a list of device-readability probes.
pub open spec fn probes_view(ps: Seq<(String, bool)>) -> Seq<(Seq<char>, bool)> {
    Seq::new(ps.len(), |i: int| (ps[i].0@, ps[i].1))
}

/// The path of the first openable device among the probes, if any.
pub open spec fn first_openable(ps: Seq<(Seq<char>, bool)>) -> Option<Seq<char>>
    decreases ps.len(),
{
    if ps.len() == 0 {
        None
    } else if ps[0].1 {
        Some(ps[0].0)
    } else {
        first_openable(ps.drop_first())
    }
}

/// Judge the input-device probes: whether the device directory could be
/// read at all, and for each event device node whether it could be opened.
/// Device access is essential, so a miss is critical.
pub fn check_input_access(dir_readable: bool, devices: &Vec<(String, bool)>) -> (r: CheckResult)
    ensures
        r.name@ == "input devices"@,
        r.severity == CheckSeverity::Critical,
        !dir_readable ==> !r.passed && r.message@ == "Cannot read /dev/input"@ && (r.hint
            matches Some(h) && h@
            == "sudo usermod -aG input $USER  (then log out and back in)"@),
        dir_readable ==> match first_openable(probes_view(devices@)) {
            Some(p) => r.passed && r.message@ == "Can access "@ + p && r.hint is None,
            None => !r.passed && r.message@ == "No input devices accessible (permission denied)"@
                && (r.hint matches Some(h) && h@
                == "sudo usermod -aG input $USER  (then log out and back in)"@),
        },
{
    let name = String::from_str("input devices");
    if !dir_readable {
        return CheckResult {
            name,
            passed: false,
            severity: CheckSeverity::Critical,
            message: String::from_str("Cannot read /dev/input"),
            hint: Some(
                String::from_str("sudo usermod -aG input $USER  (then log out and back in)"),
            ),
        };
    }
    let n = devices.len();
    let ghost pv = probes_view(devices@);
    proof {
        assert(pv.skip(0) =~= pv);
    }
    let mut i: usize = 0;
    while i < n
        invariant
            i <= n,
            n == devices@.len(),
            pv == probes_view(devices@),
            first_openable(pv) == first_openable(pv.skip(i as int)),
            dir_readable,
            name@ == "input devices"@,
        decreases n - i,
    {
        proof {
            assert(pv.skip(i as int)[0] == pv[i as int]);
            assert(pv.skip(i as int).drop_first() =~= pv.skip(i + 1));
        }
        if devices[i].1 {
            let mut msg = String::new();
            msg.append("Can access ");
            msg.append(devices[i].0.as_str());
            proof {
                assert(msg@ =~= "Can access "@ + pv[i as int].0);
            }
            return CheckResult {
                name,
                passed: true,
                severity: CheckSeverity::Critical,
                message: msg,
                hint: None,
            };
        }
        i += 1;
    }
    proof {
        assert(pv.skip(n as int) =~= Seq::<(Seq<char>, bool)>::empty());
    }
    CheckResult {
        name,
        passed: false,
        severity: CheckSeverity::Critical,
        message: String::from_str("No input devices accessible (permission denied)"),
        hint: Some(String::from_str("sudo usermod -aG input $USER  (then log out and back in)")),
    }
}

/// Judge the recorder probe: whether the `arecord` binary was found (and
/// where). Recording is essential, so a miss is critical.
pub fn check_arecord(found_at: Option<String>) -> (r: CheckResult)
    ensures
        r.name@ == "arecord"@,
        r.severity == CheckSeverity::Critical,
        r.passed == found_at is Some,
        match found_at {
            Some(p) => r.message@ == "Found at "@ + p@ && r.hint is None,
            None => r.message@ == "arecord not found"@ && (r.hint matches Some(h) && h@
                == "Install alsa-utils"@),
        },
{
    match found_at {
        Some(p) => {
            let mut msg = String::new();
            msg.append("Found at ");
            msg.append(p.as_str());
            proof {
                assert(msg@ =~= "Found at "@ + p@);
            }
            CheckResult {
                name: String::from_str("arecord"),
                passed: true,
                severity: CheckSeverity::Critical,
                message: msg,
                hint: None,
            }
        },
        None => CheckResult {
            name: String::from_str("arecord"),
            passed: false,
            severity: CheckSeverity::Critical,
            message: String::from_str("arecord not found"),
            hint: Some(String::from_str("Install alsa-utils")),
        },
    }
}

/// Judge the downloader probe: curl is only needed while the model is not
/// cached yet, so everything about it is a warning.
pub fn check_curl(model_cached: bool, found_at: Option<String>) -> (r: CheckResult)
    ensures
        r.name@ == "curl"@,
        r.severity == CheckSeverity::Warning,
        r.passed == (model_cached || found_at is Some),
        model_cached ==> r.message@ == "Not needed (model already downloaded)"@ && r.hint is None,
        !model_cached ==> match found_at {
            Some(p) => r.message@ == "Found at "@ + p@ && r.hint is None,
            None => r.message@ == "curl not found (needed to download Whisper model)"@ && (r.hint
                matches Some(h) && h@ == "Install curl"@),
        },
{
    if model_cached {
        return CheckResult {
            name: String::from_str("curl"),
            passed: true,
            severity: CheckSeverity::Warning,
            message: String::from_str("Not needed (model already downloaded)"),
            hint: None,
        };
    }
    match found_at {
        Some(p) => {
            let mut msg = String::new();
            msg.append("Found at ");
            msg.append(p.as_str());
            proof {
                assert(msg@ =~= "Found at "@ + p@);
            }
            CheckResult {
                name: String::from_str("curl"),
                passed: true,
                severity: CheckSeverity::Warning,
                message: msg,
                hint: None,
            }
        },
        None => CheckResult {
            name: String::from_str("curl"),
            passed: false,
            severity: CheckSeverity::Warning,
            message: String::from_str("curl not found (needed to download Whisper model)"),
            hint: Some(String::from_str("Install curl")),
        },
    }
}

/// Judge the paste-tool probe against the session type: on Wayland wtype
/// passes outright and wl-copy passes as clipboard-only with a warning; on
/// X11 xdotool passes; with no display server at all the check passes as a
/// warning (normal when run as a service); otherwise it fails.
pub fn check_paste_tool(env: &EnvProbe) -> (r: CheckResult)
    ensures
        r.name@ == "paste tool"@,
        env.wayland && env.has_wtype ==> r.passed && r.severity == CheckSeverity::Critical
            && r.message@ == "wtype available (Wayland)"@ && r.hint is None,
        env.wayland && !env.has_wtype && env.has_wl_copy ==> r.passed && r.severity
            == CheckSeverity::Warning && r.message@
            == "wl-copy available (clipboard only, no auto-paste)"@ && (r.hint matches Some(h)
            && h@ == "Install wtype for automatic pasting"@),
        (!env.wayland || (!env.has_wtype && !env.has_wl_copy)) && env.x11 && env.has_xdotool
            ==> r.passed && r.severity == CheckSeverity::Critical && r.message@
            == "xdotool available (X11)"@ && r.hint is None,
        !env.wayland && !env.x11 ==> r.passed && r.severity == CheckSeverity::Warning && r.message@
            == "No display server detected (OK if running as a service)"@ && r.hint is None,
        (env.wayland && !env.has_wtype && !env.has_wl_copy && !(env.x11 && env.has_xdotool)) || (
        !env.wayland && env.x11 && !env.has_xdotool) ==> !r.passed && r.severity
            == CheckSeverity::Critical && r.message@ == "No paste tool found"@ && (r.hint
            matches Some(h) && h@ == (if env.wayland {
            "Install wtype and wl-clipboard"@
        } else {
            "Install xdotool"@
        })),
{
    let name = String::from_str("paste tool");
    if env.wayland {
        if env.has_wtype {
            return CheckResult {
                name,
                passed: true,
                severity: CheckSeverity::Critical,
                message: String::from_str("wtype available (Wayland)"),
                hint: None,
            };
        }
        if env.has_wl_copy {
            return CheckResult {
                name,
                passed: true,
                severity: CheckSeverity::Warning,
                message: String::from_str("wl-copy available (clipboard only, no auto-paste)"),
                hint: Some(String::from_str("Install wtype for automatic pasting")),
            };
        }
    }
    if env.x11 && env.has_xdotool {
        return CheckResult {
            name,
            passed: true,
            severity: CheckSeverity::Critical,
            message: String::from_str("xdotool available (X11)"),
            hint: None,
        };
    }
    if !env.wayland && !env.x11 {
        return CheckResult {
            name,
            passed: true,
            severity: CheckSeverity::Warning,
            message: String::from_str("No display server detected (OK if running as a service)"),
            hint: None,
        };
    }
    CheckResult {
        name,
        passed: false,
        severity: CheckSeverity::Critical,
        message: String::from_str("No paste tool found"),
        hint: Some(
            if env.wayland {
                String::from_str("Install wtype and wl-clipboard")
            } else {
                String::from_str("Install xdotool")
            },
        ),
    }
}

} // verus!
