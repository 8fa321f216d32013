//! `verisimiser doctor`: environment-level diagnostics (toolchain on PATH,
//! a writable working directory), optionally followed by the manifest
//! checks. The probes of the environment are made by the caller; this
//! module turns their outcomes into checks and the report.

use vstd::prelude::*;

use crate::manifest::{
    all_passed, checks_view, lemma_all_passed_push, CheckV, ValidationCheck, ValidationReport,
};
use crate::text::{push_str, signed_decimal, string_from_chars};

verus! {

/// What running `<cmd> --version` gave.
#[derive(Debug, Clone, PartialEq, Eq)]
pub enum CommandOutcome {
    /// The command ran and exited successfully.
    Succeeded,
    /// The command ran and exited unsuccessfully, with this exit code
    /// (none when it was ended by a signal).
    Failed(Option<i32>),
    /// The command could not be started; the error's text.
    NotFound(String),
}

/// What inspecting the current working directory gave.
#[derive(Debug, Clone, PartialEq, Eq)]
pub enum CwdOutcome {
    /// The directory is writable.
    Writable,
    /// The directory is read-only.
    ReadOnly,
    /// The directory could not be inspected; the error's text.
    Unreadable(String),
}

/// std's `Debug` rendering of an exit code: `Some(n)` or `None`.
pub open spec fn exit_code_text(code: Option<i32>) -> Seq<char> {
    match code {
        Some(c) => "Some("@ + signed_decimal(c as int) + ")"@,
        None => "None"@,
    }
}

/// The check for a command on PATH.
pub open spec fn command_check_of(cmd: Seq<char>, description: Seq<char>, outcome: CommandOutcome) -> CheckV {
    CheckV {
        name: "path-"@ + cmd,
        description,
        passed: outcome is Succeeded,
        detail: match outcome {
            CommandOutcome::Succeeded => None,
            CommandOutcome::Failed(code) => Some(
                "`"@ + cmd + " --version` exited with status "@ + exit_code_text(code),
            ),
            CommandOutcome::NotFound(e) => Some("`"@ + cmd + "` not found on PATH: "@ + e@),
        },
    }
}

/// Description of the working-directory check.
pub const CWD_DESCRIPTION: &'static str = "Current working directory is writable";

/// The check for a writable working directory.
pub open spec fn cwd_check_of(outcome: CwdOutcome) -> CheckV {
    CheckV {
        name: "cwd-writable"@,
        description: CWD_DESCRIPTION@,
        passed: outcome is Writable,
        detail: match outcome {
            CwdOutcome::Writable => None,
            CwdOutcome::ReadOnly => Some("cwd is read-only"@),
            CwdOutcome::Unreadable(e) => Some("cannot stat cwd: "@ + e@),
        },
    }
}

/// Check that `cmd` resolves on PATH, from what running it gave.
pub fn check_command_in_path(cmd: &str, description: &str, outcome: CommandOutcome) -> (r: ValidationCheck)
    ensures
        r@ == command_check_of(cmd@, description@, outcome),
{
    let mut name: Vec<char> = Vec::new();
    push_str(&mut name, "path-");
    push_str(&mut name, cmd);
    let passed = match &outcome {
        CommandOutcome::Succeeded => true,
        _ => false,
    };
    let detail = match &outcome {
        CommandOutcome::Succeeded => None,
        CommandOutcome::Failed(code) => {
            let mut d: Vec<char> = Vec::new();
            push_str(&mut d, "`");
            push_str(&mut d, cmd);
            push_str(&mut d, " --version` exited with status ");
            match code {
                Some(c) => {
                    push_str(&mut d, "Some(");
                    crate::text::push_i64(&mut d, *c as i64);
                    push_str(&mut d, ")");
                },
                None => push_str(&mut d, "None"),
            }
            assert(d@ =~= "`"@ + cmd@ + " --version` exited with status "@ + exit_code_text(*code));
            Some(string_from_chars(&d))
        },
        CommandOutcome::NotFound(e) => {
            let mut d: Vec<char> = Vec::new();
            push_str(&mut d, "`");
            push_str(&mut d, cmd);
            push_str(&mut d, "` not found on PATH: ");
            push_str(&mut d, e.as_str());
            assert(d@ =~= "`"@ + cmd@ + "` not found on PATH: "@ + e@);
            Some(string_from_chars(&d))
        },
    };
    ValidationCheck {
        name: string_from_chars(&name),
        description: description.to_owned(),
        passed,
        detail,
    }
}

/// Check that the working directory is writable, from what inspecting it
/// gave.
pub fn check_cwd_writable(outcome: CwdOutcome) -> (r: ValidationCheck)
    ensures
        r@ == cwd_check_of(outcome),
{
    let (passed, detail) = match &outcome {
        CwdOutcome::Writable => (true, None),
        CwdOutcome::ReadOnly => (false, Some("cwd is read-only".to_owned())),
        CwdOutcome::Unreadable(e) => {
            let mut d: Vec<char> = Vec::new();
            push_str(&mut d, "cannot stat cwd: ");
            push_str(&mut d, e.as_str());
            (false, Some(string_from_chars(&d)))
        },
    };
    ValidationCheck {
        name: "cwd-writable".to_owned(),
        description: CWD_DESCRIPTION.to_owned(),
        passed,
        detail,
    }
}

/// The checks of a doctor run: cargo and git on PATH, a writable working
/// directory, then the manifest's checks when a manifest was validated.
pub open spec fn doctor_checks(
    cargo: CommandOutcome,
    git: CommandOutcome,
    cwd: CwdOutcome,
    manifest: Option<Seq<CheckV>>,
) -> Seq<CheckV> {
    seq![
        command_check_of("cargo"@, "Rust toolchain (cargo)"@, cargo),
        command_check_of("git"@, "git in PATH"@, git),
        cwd_check_of(cwd),
    ] + match manifest {
        Some(cs) => cs,
        None => Seq::empty(),
    }
}

/// The checks of an optional report.
pub open spec fn report_checks(r: Option<ValidationReport>) -> Option<Seq<CheckV>> {
    match r {
        Some(m) => Some(checks_view(m.checks@)),
        None => None,
    }
}

/// Run the doctor: the environment checks from the probe outcomes (`cargo`
/// and `git` run with `--version`, the working directory inspected), then,
/// when a manifest at `manifest_path` was validated, its checks. The
/// report names the manifest (`<none>` without one) and passes iff every
/// check passed.
pub fn run_doctor(
    manifest_path: Option<&str>,
    cargo: CommandOutcome,
    git: CommandOutcome,
    cwd: CwdOutcome,
    manifest_report: Option<ValidationReport>,
) -> (r: ValidationReport)
    ensures
        r.manifest@ == match manifest_path {
            Some(p) => p@,
            None => "<none>"@,
        },
        checks_view(r.checks@) == doctor_checks(
            cargo,
            git,
            cwd,
            report_checks(manifest_report),
        ),
        r.passed == all_passed(checks_view(r.checks@)),
{
    let ghost mv = report_checks(manifest_report);
    let mut checks: Vec<ValidationCheck> = Vec::new();
    checks.push(check_command_in_path("cargo", "Rust toolchain (cargo)", cargo));
    checks.push(check_command_in_path("git", "git in PATH", git));
    checks.push(check_cwd_writable(cwd));
    let manifest_label: String = match manifest_path {
        Some(p) => p.to_owned(),
        None => "<none>".to_owned(),
    };
    match manifest_report {
        Some(report) => {
            let extra = report.checks;
            let n = extra.len();
            let ghost base = checks_view(checks@);
            for i in 0..n
                invariant
                    n == extra@.len(),
                    checks_view(checks@) == base + checks_view(extra@).take(i as int),
            {
                let ghost before = checks@;
                checks.push(extra[i].clone_check());
                assert(checks_view(extra@).take(i + 1) =~= checks_view(extra@).take(i as int).push(
                    extra@[i as int]@,
                ));
                assert(checks_view(checks@) =~= checks_view(before).push(extra@[i as int]@));
            }
            assert(checks_view(extra@).take(n as int) == checks_view(extra@));
        },
        None => {},
    }
    assert(checks_view(checks@) =~= doctor_checks(cargo, git, cwd, mv));
    let mut passed = true;
    let n = checks.len();
    for i in 0..n
        invariant
            n == checks@.len(),
            passed == all_passed(checks_view(checks@).take(i as int)),
    {
        passed = passed && checks[i].passed;
        assert(checks_view(checks@).take(i + 1) =~= checks_view(checks@).take(i as int).push(
            checks@[i as int]@,
        ));
        proof {
            lemma_all_passed_push(checks_view(checks@).take(i as int), checks@[i as int]@);
        }
    }
    assert(checks_view(checks@).take(n as int) == checks_view(checks@));
    ValidationReport { manifest: manifest_label, passed, checks }
}

} // verus!
