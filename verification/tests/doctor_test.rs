use verisimiser::doctor::{check_command_in_path, check_cwd_writable, run_doctor, CommandOutcome, CwdOutcome};
use verisimiser::manifest::{ValidationCheck, ValidationReport};

#[test]
fn doctor_without_manifest_runs_env_checks_only() {
    let report = run_doctor(None, CommandOutcome::Succeeded, CommandOutcome::Succeeded, CwdOutcome::Writable, None);
    let names: Vec<&str> = report.checks.iter().map(|c| c.name.as_str()).collect();
    assert!(names.contains(&"path-cargo"));
    assert!(names.contains(&"path-git"));
    assert!(names.contains(&"cwd-writable"));
    assert!(!names.iter().any(|n| n.starts_with("manifest-")));
    assert_eq!(report.manifest, "<none>");
    assert!(report.passed);
}

#[test]
fn doctor_with_manifest_runs_both_sets() {
    let manifest_report = ValidationReport {
        manifest: "m.toml".into(),
        passed: true,
        checks: vec![ValidationCheck {
            name: "manifest-loads".into(),
            description: "Manifest file parses and deserialises".into(),
            passed: true,
            detail: None,
        }],
    };
    let report = run_doctor(
        Some("m.toml"),
        CommandOutcome::Succeeded,
        CommandOutcome::Failed(Some(2)),
        CwdOutcome::Writable,
        Some(manifest_report),
    );
    let names: Vec<&str> = report.checks.iter().map(|c| c.name.as_str()).collect();
    assert!(names.contains(&"path-cargo"));
    assert!(names.contains(&"manifest-loads"));
    assert_eq!(report.manifest, "m.toml");
    assert!(!report.passed);
    assert_eq!(report.failed_count(), 1);
}

#[test]
fn command_failures_are_described() {
    let c = check_command_in_path("git", "git in PATH", CommandOutcome::Failed(Some(-1)));
    assert_eq!(c.detail.as_deref(), Some("`git --version` exited with status Some(-1)"));
    let c = check_command_in_path("git", "git in PATH", CommandOutcome::Failed(None));
    assert_eq!(c.detail.as_deref(), Some("`git --version` exited with status None"));
    let c = check_command_in_path("cargo", "Rust toolchain (cargo)", CommandOutcome::NotFound("No such file".into()));
    assert_eq!(c.name, "path-cargo");
    assert_eq!(c.detail.as_deref(), Some("`cargo` not found on PATH: No such file"));
    assert!(!c.passed);
    let ok = check_command_in_path("cargo", "d", CommandOutcome::Succeeded);
    assert!(ok.passed && ok.detail.is_none());
}

#[test]
fn cwd_failures_are_described() {
    assert_eq!(check_cwd_writable(CwdOutcome::ReadOnly).detail.as_deref(), Some("cwd is read-only"));
    assert_eq!(
        check_cwd_writable(CwdOutcome::Unreadable("gone".into())).detail.as_deref(),
        Some("cannot stat cwd: gone")
    );
    assert!(check_cwd_writable(CwdOutcome::Writable).passed);
}
