//! The `verisimiser.toml` manifest model: which database is augmented, which
//! octad dimensions are enabled, where the sidecar lives, and how long each
//! dimension keeps its history; plus the consistency checks, the status
//! report and the template for a new manifest.
//!
//! Reading the file and decoding TOML happen outside this library; the
//! decoded values arrive here as plain structs.

use vstd::prelude::*;

use vstd::string::StringSliceAdditionalSpecFns;

use crate::sidecar::{storage_for, str_result_view, StorageKind};
use crate::text::{
    concat3, debug_str, decimal, push_str, push_u64, spec_debug_str, spec_to_lowercase,
    string_from_chars,
};

verus! {

// ---------------------------------------------------------------------------
// Default values
// ---------------------------------------------------------------------------

/// Default for the boolean octad toggles that are on unless disabled.
pub fn default_true() -> (r: bool)
    ensures
        r,
{
    true
}

/// Default `[project].version`.
pub fn default_version() -> (r: String)
    ensures
        r@ == "0.1.0"@,
{
    "0.1.0".to_owned()
}

/// Default `[database].backend`.
pub fn default_backend() -> (r: String)
    ensures
        r@ == "postgresql"@,
{
    "postgresql".to_owned()
}

/// Default `[database].connection-string-env`.
pub fn default_connection_env() -> (r: String)
    ensures
        r@ == "DATABASE_URL"@,
{
    "DATABASE_URL".to_owned()
}

/// Default `[sidecar].storage`.
pub fn default_sidecar_storage() -> (r: String)
    ensures
        r@ == "sqlite"@,
{
    "sqlite".to_owned()
}

/// Default `[sidecar].format`.
pub fn default_sidecar_format() -> (r: String)
    ensures
        r@ == "plain"@,
{
    "plain".to_owned()
}

/// Default `[sidecar].path`.
pub fn default_sidecar_path() -> (r: String)
    ensures
        r@ == ".verisim/sidecar.db"@,
{
    ".verisim/sidecar.db".to_owned()
}

/// Default retention: `0` days, which means "keep forever".
pub fn default_retention_forever() -> (r: u32)
    ensures
        r == 0,
{
    0
}

// ---------------------------------------------------------------------------
// Sections
// ---------------------------------------------------------------------------

/// `[project]` section — metadata about this instance.
#[derive(Debug, Clone)]
pub struct ProjectConfig {
    /// Human-readable name for this augmented database project.
    pub name: String,
    /// Semantic version of this configuration.
    pub version: String,
    /// Optional description for documentation and status output.
    pub description: Option<String>,
}

impl Default for ProjectConfig {
    fn default() -> (r: Self)
        ensures
            r.name@ == "my-augmented-db"@,
            r.version@ == "0.1.0"@,
            r.description is None,
    {
        ProjectConfig { name: "my-augmented-db".to_owned(), version: default_version(), description: None }
    }
}

/// `[database]` section — which database backend to augment and how to
/// connect to it.
#[derive(Debug, Clone)]
pub struct DatabaseConfig {
    /// Database backend type: "postgresql", "sqlite", or "mongodb".
    pub backend: String,
    /// Environment variable name holding the connection string.
    pub connection_string_env: String,
    /// Path to a SQL schema file describing the database structure.
    pub schema_source: Option<String>,
    /// Legacy `target-db` field (maps to `backend`).
    pub target_db: String,
    /// Legacy direct connection string.
    pub connection_string: Option<String>,
}

impl Default for DatabaseConfig {
    fn default() -> (r: Self)
        ensures
            r.backend@ == "postgresql"@,
            r.connection_string_env@ == "DATABASE_URL"@,
            r.schema_source is None,
            r.target_db@ == Seq::<char>::empty(),
            r.connection_string is None,
    {
        DatabaseConfig {
            backend: default_backend(),
            connection_string_env: default_connection_env(),
            schema_source: None,
            target_db: String::new(),
            connection_string: None,
        }
    }
}

/// Message for a manifest whose `backend` and legacy `target-db` disagree.
pub open spec fn backend_conflict_message(backend: Seq<char>, target_db: Seq<char>) -> Seq<char> {
    "verisimiser.toml sets both [database].backend = "@ + spec_debug_str(backend)
        + " and [database].target-db = "@ + spec_debug_str(target_db)
        + ". target-db is the legacy field; remove it and keep backend."@
}

/// The effective backend: `backend` when set, else the legacy `target-db`
/// when set, else `postgresql`; both set to different values is an error.
pub open spec fn effective_backend_of(backend: Seq<char>, target_db: Seq<char>) -> Result<
    Seq<char>,
    Seq<char>,
> {
    if backend.len() > 0 && target_db.len() > 0 && backend != target_db {
        Err(backend_conflict_message(backend, target_db))
    } else if backend.len() > 0 {
        Ok(backend)
    } else if target_db.len() > 0 {
        Ok(target_db)
    } else {
        Ok("postgresql"@)
    }
}

/// View of a borrowed-string result with a string error.
pub open spec fn str_ref_result_view(r: Result<&str, String>) -> Result<Seq<char>, Seq<char>> {
    match r {
        Ok(s) => Ok(s@),
        Err(e) => Err(e@),
    }
}

impl DatabaseConfig {
    /// Returns the effective backend name. `target-db` is the legacy field;
    /// if both it and `backend` are set to distinct values the manifest is
    /// ambiguous and this refuses rather than silently picking one.
    pub fn effective_backend(&self) -> (r: Result<&str, String>)
        ensures
            str_ref_result_view(r) == effective_backend_of(self.backend@, self.target_db@),
    {
        let new_set = !self.backend.as_str().is_empty();
        let old_set = !self.target_db.as_str().is_empty();
        if new_set && old_set && self.backend != self.target_db {
            let b = debug_str(self.backend.as_str());
            let t = debug_str(self.target_db.as_str());
            let head = concat3(
                "verisimiser.toml sets both [database].backend = ",
                b.as_str(),
                " and [database].target-db = ",
            );
            let msg = concat3(
                head.as_str(),
                t.as_str(),
                ". target-db is the legacy field; remove it and keep backend.",
            );
            Err(msg)
        } else if new_set {
            Ok(self.backend.as_str())
        } else if old_set {
            Ok(self.target_db.as_str())
        } else {
            Ok("postgresql")
        }
    }
}

/// `[octad]` section — toggles for the six optional dimensions (Data and
/// Metadata are always present).
#[derive(Debug, Clone, Copy, PartialEq, Eq, Structural)]
pub struct OctadConfig {
    /// Enable provenance tracking via SHA-256 hash chains.
    pub enable_provenance: bool,
    /// Enable lineage graph tracking (DAG of data derivations).
    pub enable_lineage: bool,
    /// Enable temporal versioning (point-in-time queries, rollback).
    pub enable_temporal: bool,
    /// Enable access control policies (row/column-level).
    pub enable_access_control: bool,
    /// Enable cross-dimensional invariant enforcement.
    pub enable_constraints: bool,
    /// Enable simulation/sandbox mode (what-if queries on branched data).
    pub enable_simulation: bool,
}

impl Default for OctadConfig {
    fn default() -> (r: Self)
        ensures
            r.enable_provenance,
            r.enable_lineage,
            r.enable_temporal,
            r.enable_access_control,
            r.enable_constraints,
            !r.enable_simulation,
    {
        OctadConfig {
            enable_provenance: true,
            enable_lineage: true,
            enable_temporal: true,
            enable_access_control: true,
            enable_constraints: true,
            enable_simulation: false,
        }
    }
}

/// 1 for an enabled toggle, 0 otherwise.
pub open spec fn flag(b: bool) -> nat {
    if b {
        1
    } else {
        0
    }
}

/// Number of enabled optional dimensions.
pub open spec fn toggles_on(o: OctadConfig) -> nat {
    flag(o.enable_provenance) + flag(o.enable_lineage) + flag(o.enable_temporal) + flag(
        o.enable_access_control,
    ) + flag(o.enable_constraints) + flag(o.enable_simulation)
}

impl OctadConfig {
    /// The count of enabled octad dimensions: the two inherent ones plus
    /// every enabled toggle.
    pub fn enabled_count(&self) -> (r: usize)
        ensures
            r == 2 + toggles_on(*self),
    {
        let mut count: usize = 2;
        if self.enable_provenance {
            count += 1;
        }
        if self.enable_lineage {
            count += 1;
        }
        if self.enable_temporal {
            count += 1;
        }
        if self.enable_access_control {
            count += 1;
        }
        if self.enable_constraints {
            count += 1;
        }
        if self.enable_simulation {
            count += 1;
        }
        count
    }
}

/// The enabled count always lies in `2..=8`: with every toggle off it is
/// exactly 2, with every toggle on exactly 8.
pub proof fn lemma_enabled_count_bounds(o: OctadConfig)
    ensures
        2 <= 2 + toggles_on(o) <= 8,
        (!o.enable_provenance && !o.enable_lineage && !o.enable_temporal
            && !o.enable_access_control && !o.enable_constraints && !o.enable_simulation) ==> 2
            + toggles_on(o) == 2,
        (o.enable_provenance && o.enable_lineage && o.enable_temporal && o.enable_access_control
            && o.enable_constraints && o.enable_simulation) ==> 2 + toggles_on(o) == 8,
{
}

/// `[sidecar]` section — where the octad dimension data is stored.
#[derive(Debug, Clone)]
pub struct SidecarConfig {
    /// Storage backend: `sqlite` (default), `postgres`/`postgresql`, or `json`.
    pub storage: String,
    /// On-disk encoding for the `json` store: `plain`, `ld` or `ndjson`.
    pub format: String,
    /// File path for the sidecar database.
    pub path: String,
}

impl Default for SidecarConfig {
    fn default() -> (r: Self)
        ensures
            r.storage@ == "sqlite"@,
            r.format@ == "plain"@,
            r.path@ == ".verisim/sidecar.db"@,
    {
        SidecarConfig {
            storage: default_sidecar_storage(),
            format: default_sidecar_format(),
            path: default_sidecar_path(),
        }
    }
}

/// `[retention]` section — days of history kept per dimension; `0` means
/// "keep forever".
#[derive(Debug, Clone, Copy, PartialEq, Eq, Structural)]
pub struct RetentionConfig {
    /// Maximum age (in days) of provenance log entries.
    pub provenance_days: u32,
    /// Maximum age (in days) of superseded temporal versions.
    pub temporal_days: u32,
    /// Maximum age (in days) of lineage graph edges.
    pub lineage_days: u32,
}

impl Default for RetentionConfig {
    fn default() -> (r: Self)
        ensures
            r.provenance_days == 0,
            r.temporal_days == 0,
            r.lineage_days == 0,
    {
        RetentionConfig {
            provenance_days: default_retention_forever(),
            temporal_days: default_retention_forever(),
            lineage_days: default_retention_forever(),
        }
    }
}

/// Legacy `[verisimiser]` section.
#[derive(Debug, Clone)]
pub struct VeriSimiserConfig {
    pub name: String,
}

impl Default for VeriSimiserConfig {
    fn default() -> (r: Self)
        ensures
            r.name@ == Seq::<char>::empty(),
    {
        VeriSimiserConfig { name: String::new() }
    }
}

/// Legacy `[tier1]` section.
#[derive(Debug, Clone, Copy, PartialEq, Eq, Structural)]
pub struct Tier1Config {
    pub drift_detection: bool,
    pub provenance: bool,
    pub temporal_versioning: bool,
}

impl Default for Tier1Config {
    fn default() -> (r: Self)
        ensures
            r.drift_detection,
            r.provenance,
            r.temporal_versioning,
    {
        Tier1Config { drift_detection: true, provenance: true, temporal_versioning: true }
    }
}

/// Legacy `[tier2]` section.
#[derive(Debug, Clone, Copy, PartialEq, Eq, Structural)]
pub struct Tier2Config {
    pub graph: bool,
    pub vector: bool,
    pub tensor: bool,
    pub semantic: bool,
    pub document: bool,
    pub spatial: bool,
}

impl Default for Tier2Config {
    fn default() -> (r: Self)
        ensures
            !r.graph && !r.vector && !r.tensor && !r.semantic && !r.document && !r.spatial,
    {
        Tier2Config {
            graph: false,
            vector: false,
            tensor: false,
            semantic: false,
            document: false,
            spatial: false,
        }
    }
}

/// The whole manifest.
#[derive(Debug, Clone)]
pub struct Manifest {
    /// Project metadata section.
    pub project: ProjectConfig,
    /// Database connection and backend configuration.
    pub database: DatabaseConfig,
    /// Octad dimension toggles.
    pub octad: OctadConfig,
    /// Sidecar storage configuration.
    pub sidecar: SidecarConfig,
    /// Retention policy, enforced by `gc`.
    pub retention: RetentionConfig,
    /// Legacy top-level `[verisimiser]` section.
    pub verisimiser: VeriSimiserConfig,
    /// Legacy Tier 1 config.
    pub tier1: Tier1Config,
    /// Legacy Tier 2 config.
    pub tier2: Tier2Config,
}

// ---------------------------------------------------------------------------
// Validation
// ---------------------------------------------------------------------------

/// Result of a single validation check. Every check runs, so all failures
/// are reported, not just the first.
#[derive(Debug, Clone)]
pub struct ValidationCheck {
    /// Stable, lower-kebab-case identifier for this check.
    pub name: String,
    /// Human-readable description of what this check verified.
    pub description: String,
    /// `true` if the check passed.
    pub passed: bool,
    /// Failure detail if the check failed; `None` when it passed.
    pub detail: Option<String>,
}

/// Aggregate report of [`validate_manifest`].
#[derive(Debug, Clone)]
pub struct ValidationReport {
    /// Path of the manifest that was validated.
    pub manifest: String,
    /// `true` iff every entry in `checks` passed.
    pub passed: bool,
    /// One entry per check, in the order they ran.
    pub checks: Vec<ValidationCheck>,
}

/// Abstract check.
pub struct CheckV {
    pub name: Seq<char>,
    pub description: Seq<char>,
    pub passed: bool,
    pub detail: Option<Seq<char>>,
}

impl View for ValidationCheck {
    type V = CheckV;

    open spec fn view(&self) -> CheckV {
        CheckV {
            name: self.name@,
            description: self.description@,
            passed: self.passed,
            detail: crate::abi::opt_string_view(self.detail),
        }
    }
}

/// Views of a sequence of checks.
pub open spec fn checks_view(v: Seq<ValidationCheck>) -> Seq<CheckV> {
    v.map_values(|c: ValidationCheck| c@)
}

/// Number of failed checks.
pub open spec fn count_failed(cs: Seq<CheckV>) -> nat
    decreases cs.len(),
{
    if cs.len() == 0 {
        0
    } else {
        count_failed(cs.drop_last()) + if cs.last().passed {
            0nat
        } else {
            1nat
        }
    }
}

/// Every check passed.
pub open spec fn all_passed(cs: Seq<CheckV>) -> bool {
    forall|i: int| 0 <= i < cs.len() ==> (#[trigger] cs[i]).passed
}

/// A report passes exactly when no check failed.
pub proof fn law_passed_iff_no_failures(cs: Seq<CheckV>)
    ensures
        all_passed(cs) <==> count_failed(cs) == 0,
    decreases cs.len(),
{
    if cs.len() > 0 {
        law_passed_iff_no_failures(cs.drop_last());
        if all_passed(cs) {
            assert forall|i: int| 0 <= i < cs.drop_last().len() implies (
            #[trigger] cs.drop_last()[i]).passed by {
                assert(cs.drop_last()[i] == cs[i]);
            }
            assert(cs[cs.len() - 1].passed);
        }
        if count_failed(cs) == 0 {
            assert forall|i: int| 0 <= i < cs.len() implies (#[trigger] cs[i]).passed by {
                if i < cs.len() - 1 {
                    assert(cs.drop_last()[i] == cs[i]);
                }
            }
        }
    }
}

pub proof fn lemma_all_passed_push(cs: Seq<CheckV>, c: CheckV)
    ensures
        all_passed(cs.push(c)) == (all_passed(cs) && c.passed),
{
    if all_passed(cs.push(c)) {
        assert(cs.push(c)[cs.len() as int] == c);
        assert forall|i: int| 0 <= i < cs.len() implies (#[trigger] cs[i]).passed by {
            assert(cs.push(c)[i] == cs[i]);
        }
    }
    if all_passed(cs) && c.passed {
        assert forall|i: int| 0 <= i < cs.push(c).len() implies (#[trigger] cs.push(c)[i]).passed by {
            if i < cs.len() {
                assert(cs.push(c)[i] == cs[i]);
            }
        }
    }
}

impl ValidationCheck {
    /// A copy with the same view.
    pub fn clone_check(&self) -> (r: Self)
        ensures
            r@ == self@,
    {
        ValidationCheck {
            name: self.name.clone(),
            description: self.description.clone(),
            passed: self.passed,
            detail: match &self.detail {
                Some(d) => Some(d.clone()),
                None => None,
            },
        }
    }
}

impl ValidationReport {
    /// Number of failing checks.
    pub fn failed_count(&self) -> (r: usize)
        ensures
            r == count_failed(checks_view(self.checks@)),
    {
        let checks = &self.checks;
        let ghost cv = checks_view(checks@);
        let n = checks.len();
        let mut c: usize = 0;
        for i in 0..n
            invariant
                n == checks@.len(),
                cv == checks_view(checks@),
                c == count_failed(cv.take(i as int)),
                c <= i,
        {
            assert(cv.take(i + 1).drop_last() == cv.take(i as int));
            assert(cv[i as int] == checks@[i as int]@);
            if !checks[i].passed {
                c += 1;
            }
        }
        assert(cv.take(n as int) == cv);
        c
    }
}

/// Description of the manifest-loads check.
pub const LOADS_DESCRIPTION: &'static str = "Manifest file parses and deserialises";

/// Description of the schema-source check.
pub const SCHEMA_SOURCE_DESCRIPTION: &'static str = "[database].schema-source points to a readable file";

/// Description of the sidecar-path check.
pub const SIDECAR_PATH_DESCRIPTION: &'static str = "Sidecar storage path's parent directory is writable";

/// Description of the storage check.
pub const STORAGE_DESCRIPTION: &'static str = "[sidecar].storage (+ format) names a supported backend";

/// Description of the backend check.
pub const BACKEND_DESCRIPTION: &'static str = "[database].backend and legacy target-db do not conflict";

/// A check with its outcome: `None` detail passes, `Some` fails.
pub open spec fn check_of(name: Seq<char>, description: Seq<char>, failure: Option<Seq<char>>) -> CheckV {
    CheckV { name, description, passed: failure is None, detail: failure }
}

/// The failure of a result, if any.
pub open spec fn failure_of<T>(r: Result<T, Seq<char>>) -> Option<Seq<char>> {
    match r {
        Ok(_) => None,
        Err(e) => Some(e),
    }
}

/// The checks run on a loaded manifest, given whether its schema source
/// is a readable file and whether the sidecar's parent directory is
/// writable (or can be created).
pub open spec fn manifest_checks(m: Manifest, schema_source_is_file: bool, sidecar_parent_writable: bool) -> Seq<
    CheckV,
> {
    let schema = match m.database.schema_source {
        Some(src) => seq![
            check_of(
                "schema-source-exists"@,
                SCHEMA_SOURCE_DESCRIPTION@,
                if schema_source_is_file {
                    None
                } else {
                    Some("'"@ + src@ + "' does not exist or is not a file"@)
                },
            ),
        ],
        None => Seq::empty(),
    };
    seq![check_of("manifest-loads"@, LOADS_DESCRIPTION@, None)] + schema + seq![
        check_of(
            "sidecar-path-writable"@,
            SIDECAR_PATH_DESCRIPTION@,
            if sidecar_parent_writable {
                None
            } else {
                Some("parent of '"@ + m.sidecar.path@ + "' is read-only or unreachable"@)
            },
        ),
        check_of(
            "sidecar-storage-supported"@,
            STORAGE_DESCRIPTION@,
            failure_of(storage_for(spec_to_lowercase(m.sidecar.storage@), m.sidecar.format@)),
        ),
        check_of(
            "backend-unambiguous"@,
            BACKEND_DESCRIPTION@,
            failure_of(effective_backend_of(m.database.backend@, m.database.target_db@)),
        ),
    ]
}

/// The checks of a validation: a manifest that fails to load stops after
/// the load check.
pub open spec fn validation_checks(
    loaded: Result<Manifest, String>,
    schema_source_is_file: bool,
    sidecar_parent_writable: bool,
) -> Seq<CheckV> {
    match loaded {
        Err(e) => seq![check_of("manifest-loads"@, LOADS_DESCRIPTION@, Some(e@))],
        Ok(m) => manifest_checks(m, schema_source_is_file, sidecar_parent_writable),
    }
}

fn make_check(name: &str, description: &str, failure: Option<String>) -> (r: ValidationCheck)
    ensures
        r@ == check_of(name@, description@, crate::abi::opt_string_view(failure)),
{
    let passed = failure.is_none();
    ValidationCheck { name: name.to_owned(), description: description.to_owned(), passed, detail: failure }
}

fn failure_of_exec<T>(r: Result<T, String>) -> (f: Option<String>)
    ensures
        crate::abi::opt_string_view(f) == failure_of(str_result_view(r)),
{
    match r {
        Ok(_) => None,
        Err(e) => Some(e),
    }
}

/// Run every consistency check of the manifest at `path`, from the outcome
/// of loading it (the decoded manifest, or the load error's text) and two
/// probes of the file system: whether `[database].schema-source` is a
/// readable file, and whether `[sidecar].path`'s parent directory is
/// writable or can be created. Checks, in order: `manifest-loads`;
/// then, for a loaded manifest, `schema-source-exists` (when a source is
/// set), `sidecar-path-writable`, `sidecar-storage-supported` and
/// `backend-unambiguous`. The report passes iff every check passed.
pub fn validate_manifest(
    path: &str,
    loaded: &Result<Manifest, String>,
    schema_source_is_file: bool,
    sidecar_parent_writable: bool,
) -> (r: ValidationReport)
    ensures
        r.manifest@ == path@,
        checks_view(r.checks@) == validation_checks(
            *loaded,
            schema_source_is_file,
            sidecar_parent_writable,
        ),
        r.passed == all_passed(checks_view(r.checks@)),
{
    let mut checks: Vec<ValidationCheck> = Vec::new();
    match loaded {
        Err(e) => {
            checks.push(make_check("manifest-loads", LOADS_DESCRIPTION, Some(e.clone())));
        },
        Ok(m) => {
            checks.push(make_check("manifest-loads", LOADS_DESCRIPTION, None));
            match &m.database.schema_source {
                Some(src) => {
                    let failure = if schema_source_is_file {
                        None
                    } else {
                        Some(concat3("'", src.as_str(), "' does not exist or is not a file"))
                    };
                    checks.push(make_check("schema-source-exists", SCHEMA_SOURCE_DESCRIPTION, failure));
                },
                None => {},
            }
            let failure = if sidecar_parent_writable {
                None
            } else {
                Some(concat3("parent of '", m.sidecar.path.as_str(), "' is read-only or unreachable"))
            };
            checks.push(make_check("sidecar-path-writable", SIDECAR_PATH_DESCRIPTION, failure));
            let storage = StorageKind::resolve(m.sidecar.storage.as_str(), m.sidecar.format.as_str());
            checks.push(make_check("sidecar-storage-supported", STORAGE_DESCRIPTION, failure_of_exec(storage)));
            let backend = m.database.effective_backend();
            let bf = match backend {
                Ok(_) => None,
                Err(e) => Some(e),
            };
            checks.push(make_check("backend-unambiguous", BACKEND_DESCRIPTION, bf));
        },
    }
    assert(checks_view(checks@) =~= validation_checks(
        *loaded,
        schema_source_is_file,
        sidecar_parent_writable,
    ));
    let mut passed = true;
    let n = checks.len();
    for i in 0..n
        invariant
            n == checks@.len(),
            passed == all_passed(checks_view(checks@).take(i as int)),
    {
        assert(checks_view(checks@)[i as int] == checks@[i as int]@);
        passed = passed && checks[i].passed;
        assert(checks_view(checks@).take(i + 1) =~= checks_view(checks@).take(i as int).push(
            checks@[i as int]@,
        ));
        proof {
            lemma_all_passed_push(checks_view(checks@).take(i as int), checks@[i as int]@);
        }
    }
    assert(checks_view(checks@).take(n as int) == checks_view(checks@));
    ValidationReport { manifest: path.to_owned(), passed, checks }
}

// ---------------------------------------------------------------------------
// Status
// ---------------------------------------------------------------------------

/// The status report of a manifest.
#[derive(Debug, Clone)]
pub struct StatusReport {
    /// Project name (`[project].name` or legacy `[verisimiser].name`).
    pub name: String,
    /// Effective database backend after legacy field resolution.
    pub backend: String,
    /// Path to the sidecar storage file.
    pub sidecar_path: String,
    /// Sidecar storage technology.
    pub sidecar_storage: String,
    /// Per-dimension enablement.
    pub octad: OctadStatus,
}

/// Per-dimension view of the octad toggles.
#[derive(Debug, Clone, Copy, PartialEq, Eq, Structural)]
pub struct OctadStatus {
    /// Number of enabled dimensions (always in `2..=8`).
    pub enabled_count: usize,
    /// Always `true`.
    pub data: bool,
    /// Always `true`.
    pub metadata: bool,
    pub provenance: bool,
    pub lineage: bool,
    pub constraints: bool,
    pub access_control: bool,
    pub temporal: bool,
    pub simulation: bool,
}

/// The project name shown for a manifest: `[project].name`, or the legacy
/// `[verisimiser].name` when it is empty.
pub open spec fn display_name(m: Manifest) -> Seq<char> {
    if m.project.name@.len() > 0 {
        m.project.name@
    } else {
        m.verisimiser.name@
    }
}

/// The backend shown for a manifest: the effective backend, or the raw
/// `[database].backend` when the two backend fields conflict.
pub open spec fn display_backend(m: Manifest) -> Seq<char> {
    match effective_backend_of(m.database.backend@, m.database.target_db@) {
        Ok(b) => b,
        Err(_) => m.database.backend@,
    }
}

/// Build the status report of a loaded manifest.
pub fn status_report(manifest: &Manifest) -> (r: StatusReport)
    ensures
        r.name@ == display_name(*manifest),
        r.backend@ == display_backend(*manifest),
        r.sidecar_path@ == manifest.sidecar.path@,
        r.sidecar_storage@ == manifest.sidecar.storage@,
        r.octad.enabled_count == 2 + toggles_on(manifest.octad),
        r.octad.data && r.octad.metadata,
        r.octad.provenance == manifest.octad.enable_provenance,
        r.octad.lineage == manifest.octad.enable_lineage,
        r.octad.constraints == manifest.octad.enable_constraints,
        r.octad.access_control == manifest.octad.enable_access_control,
        r.octad.temporal == manifest.octad.enable_temporal,
        r.octad.simulation == manifest.octad.enable_simulation,
{
    let name = if !manifest.project.name.as_str().is_empty() {
        manifest.project.name.clone()
    } else {
        manifest.verisimiser.name.clone()
    };
    let backend = match manifest.database.effective_backend() {
        Ok(b) => b.to_owned(),
        Err(_) => manifest.database.backend.clone(),
    };
    StatusReport {
        name,
        backend,
        sidecar_path: manifest.sidecar.path.clone(),
        sidecar_storage: manifest.sidecar.storage.clone(),
        octad: OctadStatus {
            enabled_count: manifest.octad.enabled_count(),
            data: true,
            metadata: true,
            provenance: manifest.octad.enable_provenance,
            lineage: manifest.octad.enable_lineage,
            constraints: manifest.octad.enable_constraints,
            access_control: manifest.octad.enable_access_control,
            temporal: manifest.octad.enable_temporal,
            simulation: manifest.octad.enable_simulation,
        },
    }
}

// ---------------------------------------------------------------------------
// Template for a new manifest
// ---------------------------------------------------------------------------

/// The rendering of a boolean in TOML.
pub open spec fn bool_text(b: bool) -> Seq<char> {
    if b {
        "true"@
    } else {
        "false"@
    }
}

fn push_bool(buf: &mut Vec<char>, b: bool)
    ensures
        final(buf)@ == old(buf)@ + bool_text(b),
{
    if b {
        push_str(buf, "true");
    } else {
        push_str(buf, "false");
    }
}

/// The manifest template for backend `database` and project `name`, with
/// every other value at its default.
pub open spec fn manifest_template_text(database: Seq<char>, name: Seq<char>) -> Seq<char> {
    "# SPDX-License-Identifier: MPL-2.0\n# VeriSimiser manifest \u{2014} augment "@
        + database
        + " with VeriSimDB octad capabilities\n\n[project]\nname = \""@
        + name
        + "\"\nversion = \""@
        + "0.1.0"@
        + "\"\n# description = \"My database augmented with VeriSimDB octad dimensions\"\n\n[database]\nbackend = \""@
        + database
        + "\"\nconnection-string-env = \""@
        + "DATABASE_URL"@
        + "\"\n# schema-source = \"schema.sql\"\n\n[octad]\nenable-provenance = "@
        + "true"@
        + "\nenable-lineage = "@
        + "true"@
        + "\nenable-temporal = "@
        + "true"@
        + "\nenable-access-control = "@
        + "true"@
        + "\nenable-constraints = "@
        + "true"@
        + "\nenable-simulation = "@
        + "false"@
        + "\n\n[sidecar]\n# storage backend: \"sqlite\" (default), \"postgres\"/\"postgresql\", or \"json\"\nstorage = \""@
        + "sqlite"@
        + "\"\n# json on-disk encoding (ignored for sql backends): \"plain\" | \"ld\" | \"ndjson\"\nformat = \""@
        + "plain"@
        + "\"\npath = \""@
        + ".verisim/sidecar.db"@
        + "\"\n\n[retention]\n# Days to keep per dimension. 0 = keep forever.\nprovenance-days = "@
        + decimal(0)
        + "\ntemporal-days   = "@
        + decimal(0)
        + "\nlineage-days    = "@
        + decimal(0)
        + "\n"@
}

/// Render a new `verisimiser.toml` for `database`, naming the project
/// `name` (default `my-augmented-db`); every other value is taken from the
/// section defaults, so the template cannot drift from them.
pub fn render_manifest_template(database: &str, name: Option<&str>) -> (r: String)
    ensures
        r@ == manifest_template_text(
            database@,
            match name {
                Some(n) => n@,
                None => "my-augmented-db"@,
            },
        ),
{
    let project = ProjectConfig::default();
    let octad = OctadConfig::default();
    let sidecar = SidecarConfig::default();
    let retention = RetentionConfig::default();
    let conn_env = default_connection_env();
    let project_name: &str = match name {
        Some(n) => n,
        None => project.name.as_str(),
    };
    let mut buf: Vec<char> = Vec::new();
    push_str(&mut buf, "# SPDX-License-Identifier: MPL-2.0\n# VeriSimiser manifest \u{2014} augment ");
    push_str(&mut buf, database);
    push_str(&mut buf, " with VeriSimDB octad capabilities\n\n[project]\nname = \"");
    push_str(&mut buf, project_name);
    push_str(&mut buf, "\"\nversion = \"");
    push_str(&mut buf, project.version.as_str());
    push_str(&mut buf, "\"\n# description = \"My database augmented with VeriSimDB octad dimensions\"\n\n[database]\nbackend = \"");
    push_str(&mut buf, database);
    push_str(&mut buf, "\"\nconnection-string-env = \"");
    push_str(&mut buf, conn_env.as_str());
    push_str(&mut buf, "\"\n# schema-source = \"schema.sql\"\n\n[octad]\nenable-provenance = ");
    push_bool(&mut buf, octad.enable_provenance);
    push_str(&mut buf, "\nenable-lineage = ");
    push_bool(&mut buf, octad.enable_lineage);
    push_str(&mut buf, "\nenable-temporal = ");
    push_bool(&mut buf, octad.enable_temporal);
    push_str(&mut buf, "\nenable-access-control = ");
    push_bool(&mut buf, octad.enable_access_control);
    push_str(&mut buf, "\nenable-constraints = ");
    push_bool(&mut buf, octad.enable_constraints);
    push_str(&mut buf, "\nenable-simulation = ");
    push_bool(&mut buf, octad.enable_simulation);
    push_str(&mut buf, "\n\n[sidecar]\n# storage backend: \"sqlite\" (default), \"postgres\"/\"postgresql\", or \"json\"\nstorage = \"");
    push_str(&mut buf, sidecar.storage.as_str());
    push_str(&mut buf, "\"\n# json on-disk encoding (ignored for sql backends): \"plain\" | \"ld\" | \"ndjson\"\nformat = \"");
    push_str(&mut buf, sidecar.format.as_str());
    push_str(&mut buf, "\"\npath = \"");
    push_str(&mut buf, sidecar.path.as_str());
    push_str(&mut buf, "\"\n\n[retention]\n# Days to keep per dimension. 0 = keep forever.\nprovenance-days = ");
    push_u64(&mut buf, retention.provenance_days as u64);
    push_str(&mut buf, "\ntemporal-days   = ");
    push_u64(&mut buf, retention.temporal_days as u64);
    push_str(&mut buf, "\nlineage-days    = ");
    push_u64(&mut buf, retention.lineage_days as u64);
    push_str(&mut buf, "\n");
    proof {
        assert(decimal(0) == seq!['0']);
    }
    assert(buf@ =~= manifest_template_text(
        database@,
        match name {
            Some(n) => n@,
            None => "my-augmented-db"@,
        },
    ));
    string_from_chars(&buf)
}

// ---------------------------------------------------------------------------
// Load-error positions and the plain-text status
// ---------------------------------------------------------------------------

/// Number of newline bytes.
pub open spec fn count_newlines(b: Seq<u8>) -> nat
    decreases b.len(),
{
    if b.len() == 0 {
        0
    } else {
        count_newlines(b.drop_last()) + if b.last() == 10u8 {
            1nat
        } else {
            0nat
        }
    }
}

/// Number of bytes after the last newline (all of them if none).
pub open spec fn bytes_after_last_newline(b: Seq<u8>) -> nat
    decreases b.len(),
{
    if b.len() == 0 {
        0
    } else if b.last() == 10u8 {
        0
    } else {
        bytes_after_last_newline(b.drop_last()) + 1
    }
}

/// The 1-based `(line, column)` of a byte offset, clamped to the text.
pub open spec fn line_col_of(bytes: Seq<u8>, offset: nat) -> (nat, nat) {
    let end = if offset <= bytes.len() {
        offset
    } else {
        bytes.len()
    };
    let prefix = bytes.take(end as int);
    (count_newlines(prefix) + 1, bytes_after_last_newline(prefix) + 1)
}

/// Convert a UTF-8 byte offset within `text` (clamped to its length) to a
/// 1-based `(line, column)` pair, the column counted in bytes.
pub fn byte_offset_to_line_col(text: &str, offset: usize) -> (r: (usize, usize))
    requires
        text.spec_bytes().len() < usize::MAX,
        vstd::utf8::is_char_boundary(
            text.spec_bytes(),
            if offset <= text.spec_bytes().len() {
                offset as int
            } else {
                text.spec_bytes().len() as int
            },
        ),
    ensures
        (r.0 as nat, r.1 as nat) == line_col_of(text.spec_bytes(), offset as nat),
{
    let bytes = text.as_bytes();
    let end = if offset <= bytes.len() {
        offset
    } else {
        bytes.len()
    };
    let ghost b = bytes@;
    let mut lines: usize = 0;
    let mut col: usize = 0;
    for i in 0..end
        invariant
            end <= bytes@.len(),
            b == bytes@,
            b.len() < usize::MAX,
            lines == count_newlines(b.take(i as int)),
            col == bytes_after_last_newline(b.take(i as int)),
            lines <= i,
            col <= i,
    {
        assert(b.take(i + 1).drop_last() == b.take(i as int));
        assert(b.take(i + 1).last() == bytes@[i as int]);
        if bytes[i] == 10u8 {
            lines += 1;
            col = 0;
        } else {
            col += 1;
        }
    }
    (lines + 1, col + 1)
}

/// The error text of a manifest that failed to decode: `path:line:col:
/// message`, the position taken from the decoder's byte offset (`1:1`
/// when it gives none).
pub open spec fn load_error_text(path: Seq<char>, contents: &str, span_start: Option<usize>, message: Seq<char>) -> Seq<
    char,
> {
    let (line, col) = match span_start {
        Some(o) => line_col_of(contents.spec_bytes(), o as nat),
        None => (1nat, 1nat),
    };
    path + ":"@ + decimal(line) + ":"@ + decimal(col) + ": "@ + message
}

/// Format the error of a manifest whose text `contents` failed to decode,
/// at byte offset `span_start` (if the decoder gave one) with `message`.
pub fn manifest_load_error(path: &str, contents: &str, span_start: Option<usize>, message: &str) -> (r:
    String)
    requires
        contents.spec_bytes().len() < usize::MAX,
        span_start matches Some(o) ==> vstd::utf8::is_char_boundary(
            contents.spec_bytes(),
            if o <= contents.spec_bytes().len() {
                o as int
            } else {
                contents.spec_bytes().len() as int
            },
        ),
    ensures
        r@ == load_error_text(path@, contents, span_start, message@),
{
    let (line, col) = match span_start {
        Some(o) => byte_offset_to_line_col(contents, o),
        None => (1, 1),
    };
    let mut buf: Vec<char> = Vec::new();
    push_str(&mut buf, path);
    push_str(&mut buf, ":");
    push_u64(&mut buf, line as u64);
    push_str(&mut buf, ":");
    push_u64(&mut buf, col as u64);
    push_str(&mut buf, ": ");
    push_str(&mut buf, message);
    assert(buf@ =~= load_error_text(path@, contents, span_start, message@));
    string_from_chars(&buf)
}

/// `ON` or `off`.
pub open spec fn on_off_text(b: bool) -> Seq<char> {
    if b {
        "ON"@
    } else {
        "off"@
    }
}

fn push_on_off(buf: &mut Vec<char>, b: bool)
    ensures
        final(buf)@ == old(buf)@ + on_off_text(b),
{
    if b {
        push_str(buf, "ON");
    } else {
        push_str(buf, "off");
    }
}

/// The human-readable status of a manifest whose effective backend is `b`.
pub open spec fn status_text(m: Manifest, b: Seq<char>) -> Seq<char> {
    "=== VeriSimiser: "@ + display_name(m) + " ===\nBackend: "@ + b + "\nSidecar: "@ + m.sidecar.path@
        + " ("@ + m.sidecar.storage@ + ")\n\nOctad Dimensions ("@ + decimal(2 + toggles_on(m.octad))
        + "/8 enabled):\n  Data:           ALWAYS ON (your database)\n  Metadata:       ALWAYS ON (schema introspection)\n  Provenance:     "@
        + on_off_text(m.octad.enable_provenance) + "\n  Lineage:        "@ + on_off_text(
        m.octad.enable_lineage,
    ) + "\n  Constraints:    "@ + on_off_text(m.octad.enable_constraints)
        + "\n  Access Control: "@ + on_off_text(m.octad.enable_access_control)
        + "\n  Temporal:       "@ + on_off_text(m.octad.enable_temporal) + "\n  Simulation:     "@
        + on_off_text(m.octad.enable_simulation) + "\n"@
}

/// The human-readable status summary of a loaded manifest; refused when
/// the backend fields conflict.
pub fn render_status(manifest: &Manifest) -> (r: Result<String, String>)
    ensures
        match effective_backend_of(manifest.database.backend@, manifest.database.target_db@) {
            Ok(b) => r matches Ok(t) && t@ == status_text(*manifest, b),
            Err(e) => r matches Err(x) && x@ == e,
        },
{
    let backend = match manifest.database.effective_backend() {
        Ok(b) => b,
        Err(e) => {
            return Err(e);
        },
    };
    let name: &str = if !manifest.project.name.as_str().is_empty() {
        manifest.project.name.as_str()
    } else {
        manifest.verisimiser.name.as_str()
    };
    let mut buf: Vec<char> = Vec::new();
    push_str(&mut buf, "=== VeriSimiser: ");
    push_str(&mut buf, name);
    push_str(&mut buf, " ===\nBackend: ");
    push_str(&mut buf, backend);
    push_str(&mut buf, "\nSidecar: ");
    push_str(&mut buf, manifest.sidecar.path.as_str());
    push_str(&mut buf, " (");
    push_str(&mut buf, manifest.sidecar.storage.as_str());
    push_str(&mut buf, ")\n\nOctad Dimensions (");
    push_u64(&mut buf, manifest.octad.enabled_count() as u64);
    push_str(
        &mut buf,
        "/8 enabled):\n  Data:           ALWAYS ON (your database)\n  Metadata:       ALWAYS ON (schema introspection)\n  Provenance:     ",
    );
    push_on_off(&mut buf, manifest.octad.enable_provenance);
    push_str(&mut buf, "\n  Lineage:        ");
    push_on_off(&mut buf, manifest.octad.enable_lineage);
    push_str(&mut buf, "\n  Constraints:    ");
    push_on_off(&mut buf, manifest.octad.enable_constraints);
    push_str(&mut buf, "\n  Access Control: ");
    push_on_off(&mut buf, manifest.octad.enable_access_control);
    push_str(&mut buf, "\n  Temporal:       ");
    push_on_off(&mut buf, manifest.octad.enable_temporal);
    push_str(&mut buf, "\n  Simulation:     ");
    push_on_off(&mut buf, manifest.octad.enable_simulation);
    push_str(&mut buf, "\n");
    assert(buf@ =~= status_text(*manifest, backend@));
    Ok(string_from_chars(&buf))
}

} // verus!
