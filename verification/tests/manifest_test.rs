use verisimiser::manifest::{DatabaseConfig, OctadConfig};

#[test]
fn enabled_count_is_in_range_2_to_8() {
    for bits in 0u8..(1 << 6) {
        let cfg = OctadConfig {
            enable_provenance: bits & 0b000001 != 0,
            enable_lineage: bits & 0b000010 != 0,
            enable_temporal: bits & 0b000100 != 0,
            enable_access_control: bits & 0b001000 != 0,
            enable_constraints: bits & 0b010000 != 0,
            enable_simulation: bits & 0b100000 != 0,
        };
        let n = cfg.enabled_count();
        assert!(
            (2..=8).contains(&n),
            "bits={bits:06b} produced enabled_count={n}, expected 2..=8"
        );
    }
}

#[test]
fn enabled_count_with_all_off_is_two() {
    let cfg = OctadConfig {
        enable_provenance: false,
        enable_lineage: false,
        enable_temporal: false,
        enable_access_control: false,
        enable_constraints: false,
        enable_simulation: false,
    };
    assert_eq!(cfg.enabled_count(), 2);
}

#[test]
fn enabled_count_with_all_on_is_eight() {
    let cfg = OctadConfig {
        enable_provenance: true,
        enable_lineage: true,
        enable_temporal: true,
        enable_access_control: true,
        enable_constraints: true,
        enable_simulation: true,
    };
    assert_eq!(cfg.enabled_count(), 8);
}

#[test]
fn test_enabled_count_bounds() {
    for mask in 0u8..64 {
        let octad = OctadConfig {
            enable_provenance: mask & 0b000001 != 0,
            enable_lineage: mask & 0b000010 != 0,
            enable_temporal: mask & 0b000100 != 0,
            enable_access_control: mask & 0b001000 != 0,
            enable_constraints: mask & 0b010000 != 0,
            enable_simulation: mask & 0b100000 != 0,
        };
        let c = octad.enabled_count();
        assert!(
            (2..=8).contains(&c),
            "enabled_count out of range for mask={:#08b}: got {}",
            mask,
            c
        );
    }
}

#[test]
fn test_enabled_count_arithmetic() {
    let octad = OctadConfig {
        enable_provenance: true,
        enable_lineage: false,
        enable_temporal: true,
        enable_access_control: false,
        enable_constraints: true,
        enable_simulation: false,
    };
    assert_eq!(octad.enabled_count(), 2 + 3);
}

#[test]
fn test_effective_backend_agreement() {
    let cfg = DatabaseConfig {
        backend: "sqlite".to_string(),
        target_db: "sqlite".to_string(),
        ..Default::default()
    };
    assert_eq!(cfg.effective_backend().unwrap(), "sqlite");
}

#[test]
fn test_effective_backend_conflict_errors() {
    let cfg = DatabaseConfig {
        backend: "postgresql".to_string(),
        target_db: "sqlite".to_string(),
        ..Default::default()
    };
    let err = cfg.effective_backend().unwrap_err().to_string();
    assert!(
        err.contains("postgresql"),
        "error mentions modern field value"
    );
    assert!(err.contains("sqlite"), "error mentions legacy field value");
}

#[test]
fn test_effective_backend_single_source() {
    let modern = DatabaseConfig {
        backend: "sqlite".to_string(),
        target_db: String::new(),
        ..Default::default()
    };
    assert_eq!(modern.effective_backend().unwrap(), "sqlite");

    let legacy = DatabaseConfig {
        backend: String::new(),
        target_db: "mongodb".to_string(),
        ..Default::default()
    };
    assert_eq!(legacy.effective_backend().unwrap(), "mongodb");
}

#[test]
fn test_effective_backend_default() {
    let cfg = DatabaseConfig {
        backend: String::new(),
        target_db: String::new(),
        ..Default::default()
    };
    assert_eq!(cfg.effective_backend().unwrap(), "postgresql");
}

#[test]
fn test_init_manifest_template_uses_defaults() {
    // We can't actually call init_manifest in a unit test (it writes
    // to CWD), but we can check that the template *would* be
    // consistent by computing what it would emit and asserting
    // the toggle lines match Default.
    let defaults = OctadConfig::default();
    // If a future patch flips a default, this test makes the
    // template-vs-Default invariant visible.
    assert!(defaults.enable_provenance);
    assert!(defaults.enable_lineage);
    assert!(defaults.enable_temporal);
    assert!(defaults.enable_access_control);
    assert!(defaults.enable_constraints);
    assert!(!defaults.enable_simulation);
}
use verisimiser::manifest::{
    byte_offset_to_line_col, manifest_load_error, render_manifest_template, render_status,
    status_report, validate_manifest, Manifest, ProjectConfig, RetentionConfig, SidecarConfig,
    Tier1Config, Tier2Config, VeriSimiserConfig,
};

fn manifest(backend: &str, target_db: &str, storage: &str, format: &str) -> Manifest {
    Manifest {
        project: ProjectConfig { name: "test".to_string(), ..Default::default() },
        database: DatabaseConfig {
            backend: backend.to_string(),
            target_db: target_db.to_string(),
            ..Default::default()
        },
        octad: OctadConfig::default(),
        sidecar: SidecarConfig {
            storage: storage.to_string(),
            format: format.to_string(),
            path: "/tmp/x/sidecar.db".to_string(),
        },
        retention: RetentionConfig::default(),
        verisimiser: VeriSimiserConfig::default(),
        tier1: Tier1Config::default(),
        tier2: Tier2Config::default(),
    }
}

#[test]
fn good_manifest_passes() {
    let m = manifest("sqlite", "", "sqlite", "plain");
    let report = validate_manifest("verisimiser.toml", &Ok(m), true, true);
    assert!(report.passed, "checks: {:?}", report.checks);
    assert_eq!(report.failed_count(), 0);
    let names: Vec<&str> = report.checks.iter().map(|c| c.name.as_str()).collect();
    assert_eq!(
        names,
        vec!["manifest-loads", "sidecar-path-writable", "sidecar-storage-supported", "backend-unambiguous"]
    );
}

#[test]
fn conflicting_backend_fails_validation() {
    let m = manifest("sqlite", "postgresql", "sqlite", "plain");
    let report = validate_manifest("verisimiser.toml", &Ok(m), true, true);
    assert!(!report.passed);
    assert!(report.checks.iter().any(|c| c.name == "backend-unambiguous" && !c.passed));
    assert_eq!(report.failed_count(), 1);
}

#[test]
fn missing_schema_source_fails() {
    let mut m = manifest("sqlite", "", "sqlite", "plain");
    m.database.schema_source = Some("/nonexistent/schema.sql".to_string());
    let report = validate_manifest("verisimiser.toml", &Ok(m), false, true);
    assert!(!report.passed);
    let failed: Vec<&str> = report.checks.iter().filter(|c| !c.passed).map(|c| c.name.as_str()).collect();
    assert_eq!(failed, vec!["schema-source-exists"]);
    assert_eq!(
        report.checks[1].detail.as_deref(),
        Some("'/nonexistent/schema.sql' does not exist or is not a file")
    );
}

#[test]
fn json_storage_with_valid_format_passes() {
    let m = manifest("sqlite", "", "json", "ndjson");
    assert!(validate_manifest("verisimiser.toml", &Ok(m), true, true).passed);
}

#[test]
fn postgres_storage_passes_storage_check() {
    let m = manifest("postgresql", "", "postgres", "plain");
    let report = validate_manifest("verisimiser.toml", &Ok(m), true, true);
    assert!(report.passed);
    assert!(report.checks.iter().any(|c| c.name == "sidecar-storage-supported" && c.passed));
}

#[test]
fn bad_format_and_unknown_storage_fail() {
    let storage_check = |m: Manifest| {
        validate_manifest("verisimiser.toml", &Ok(m), true, true)
            .checks
            .into_iter()
            .find(|c| c.name == "sidecar-storage-supported")
            .expect("storage check must run")
    };
    let bad_format = storage_check(manifest("sqlite", "", "json", "yaml"));
    assert!(!bad_format.passed);
    assert!(bad_format.detail.as_deref().unwrap_or_default().contains("format"));
    let unknown = storage_check(manifest("sqlite", "", "mariadb", ""));
    assert!(!unknown.passed);
}

#[test]
fn malformed_manifest_fails_load_check() {
    let report = validate_manifest("verisimiser.toml", &Err("verisimiser.toml:1:8: expected `=`".to_string()), true, true);
    assert!(!report.passed);
    assert_eq!(report.checks.len(), 1, "only manifest-loads should run");
    assert_eq!(report.checks[0].name, "manifest-loads");
    assert!(!report.checks[0].passed);
    assert_eq!(report.manifest, "verisimiser.toml");
}

#[test]
fn read_only_sidecar_parent_fails() {
    let m = manifest("sqlite", "", "sqlite", "plain");
    let report = validate_manifest("m.toml", &Ok(m), true, false);
    assert_eq!(
        report.checks[1].detail.as_deref(),
        Some("parent of '/tmp/x/sidecar.db' is read-only or unreachable")
    );
}

#[test]
fn template_round_trips_through_toml() {
    let rendered = render_manifest_template("postgresql", None);
    let v: toml::Value = toml::from_str(&rendered).expect("rendered template must parse");
    let defaults = OctadConfig::default();
    let octad = &v["octad"];
    assert_eq!(octad["enable-provenance"].as_bool(), Some(defaults.enable_provenance));
    assert_eq!(octad["enable-lineage"].as_bool(), Some(defaults.enable_lineage));
    assert_eq!(octad["enable-temporal"].as_bool(), Some(defaults.enable_temporal));
    assert_eq!(octad["enable-access-control"].as_bool(), Some(defaults.enable_access_control));
    assert_eq!(octad["enable-constraints"].as_bool(), Some(defaults.enable_constraints));
    assert_eq!(octad["enable-simulation"].as_bool(), Some(defaults.enable_simulation));
    assert_eq!(v["database"]["backend"].as_str(), Some("postgresql"));
    assert_eq!(v["retention"]["provenance-days"].as_integer(), Some(0));
}

#[test]
fn template_uses_explicit_name_when_provided() {
    let rendered = render_manifest_template("sqlite", Some("acme-warehouse"));
    let v: toml::Value = toml::from_str(&rendered).expect("template parses");
    assert_eq!(v["project"]["name"].as_str(), Some("acme-warehouse"));
    assert_eq!(v["database"]["backend"].as_str(), Some("sqlite"));
}

#[test]
fn template_falls_back_to_default_name() {
    let rendered = render_manifest_template("mongodb", None);
    let v: toml::Value = toml::from_str(&rendered).expect("template parses");
    assert_eq!(v["project"]["name"].as_str(), Some(ProjectConfig::default().name.as_str()));
}

#[test]
fn line_and_column_of_byte_offsets() {
    assert_eq!(byte_offset_to_line_col("abc", 0), (1, 1));
    assert_eq!(byte_offset_to_line_col("ab\ncd\nef", 4), (2, 2));
    assert_eq!(byte_offset_to_line_col("ab\ncd\nef", 6), (3, 1));
    assert_eq!(byte_offset_to_line_col("ab\n", 99), (2, 1));
}

#[test]
fn malformed_manifest_reports_line_and_column() {
    let msg = manifest_load_error("m.toml", "[a]\nbroken value\n", Some(11), "expected `=`");
    assert_eq!(msg, "m.toml:2:8: expected `=`");
    assert_eq!(manifest_load_error("m.toml", "", None, "boom"), "m.toml:1:1: boom");
}

#[test]
fn status_report_prefers_project_name_and_resolves_backend() {
    let mut m = manifest("", "mongodb", "sqlite", "plain");
    m.project.name = String::new();
    m.verisimiser.name = "legacy".to_string();
    let s = status_report(&m);
    assert_eq!(s.name, "legacy");
    assert_eq!(s.backend, "mongodb");
    assert_eq!(s.octad.enabled_count, 7);
    assert!(s.octad.data && s.octad.metadata && !s.octad.simulation);
    let conflict = manifest("sqlite", "postgresql", "sqlite", "plain");
    assert_eq!(status_report(&conflict).backend, "sqlite");
}

#[test]
fn status_text_lists_every_dimension() {
    let m = manifest("sqlite", "", "sqlite", "plain");
    let t = render_status(&m).unwrap();
    assert!(t.starts_with("=== VeriSimiser: test ===\nBackend: sqlite\nSidecar: /tmp/x/sidecar.db (sqlite)\n\nOctad Dimensions (7/8 enabled):\n"));
    assert!(t.contains("  Simulation:     off\n"));
    assert!(t.contains("  Provenance:     ON\n"));
    assert!(render_status(&manifest("sqlite", "postgresql", "sqlite", "")).is_err());
}
