//! Drift detection: the expected state of a table, derived by replay, held
//! against the state its catalog reports.

use vstd::prelude::*;
use vstd::string::StringExecFns;
use crate::adapters::iceberg::IcebergTableState;
use crate::state::TableState;

verus! {

/// Severity of detected drift. The order is `Info`, `Warning`, `Critical`.
#[derive(Debug, Clone, Copy, PartialEq, Eq, Structural)]
pub enum DriftSeverity {
    /// Informational drift (no immediate risk).
    Info,
    /// Warning-level drift (potential risk).
    Warning,
    /// Critical drift (data correctness at risk).
    Critical,
}

/// Types of drift that can occur.
#[derive(Debug, Clone, Copy, PartialEq, Eq, Structural)]
pub enum DriftType {
    UnexpectedMutation,
    SchemaMismatch,
    SnapshotMismatch,
}

/// A single drift finding.
#[derive(Debug, PartialEq, Eq)]
pub struct DriftFinding {
    pub drift_type: DriftType,
    pub severity: DriftSeverity,
    pub message: String,
}

/// A `DriftFinding` with its message as a sequence of characters.
pub struct DriftFindingView {
    pub drift_type: DriftType,
    pub severity: DriftSeverity,
    pub message: Seq<char>,
}

impl View for DriftFinding {
    type V = DriftFindingView;

    open spec fn view(&self) -> DriftFindingView {
        DriftFindingView {
            drift_type: self.drift_type,
            severity: self.severity,
            message: self.message@,
        }
    }
}

impl Clone for DriftFinding {
    fn clone(&self) -> (r: Self)
        ensures
            r@ == self@,
    {
        DriftFinding { drift_type: self.drift_type, severity: self.severity, message: self.message.clone() }
    }
}

/// Full drift report: the findings in the order the rules produced them.
#[derive(Debug, PartialEq, Eq)]
pub struct DriftReport {
    pub findings: Vec<DriftFinding>,
}

impl View for DriftReport {
    type V = Seq<DriftFindingView>;

    open spec fn view(&self) -> Seq<DriftFindingView> {
        Seq::new(self.findings@.len(), |i: int| self.findings@[i]@)
    }
}

impl Clone for DriftReport {
    fn clone(&self) -> (r: Self)
        ensures
            r@ == self@,
    {
        let mut findings: Vec<DriftFinding> = Vec::new();
        let mut i: usize = 0;
        while i < self.findings.len()
            invariant
                i <= self.findings@.len(),
                findings@.len() == i,
                forall|j: int| 0 <= j < i ==> (#[trigger] findings@[j])@ == self.findings@[j]@,
            decreases self.findings@.len() - i,
        {
            findings.push(self.findings[i].clone());
            i += 1;
        }
        let r = DriftReport { findings };
        assert(r@ =~= self@);
        r
    }
}

/// The place of a severity in the order `Info < Warning < Critical`.
pub open spec fn severity_rank(severity: DriftSeverity) -> int {
    match severity {
        DriftSeverity::Info => 0,
        DriftSeverity::Warning => 1,
        DriftSeverity::Critical => 2,
    }
}

/// The order of severities is total: two severities of one rank are one
/// severity, and any two ranks compare.
pub proof fn lemma_severity_order_total(a: DriftSeverity, b: DriftSeverity)
    ensures
        severity_rank(a) == severity_rank(b) <==> a == b,
        severity_rank(a) < severity_rank(b) || severity_rank(b) < severity_rank(a) || a == b,
        severity_rank(DriftSeverity::Info) < severity_rank(DriftSeverity::Warning) < severity_rank(
            DriftSeverity::Critical,
        ),
{
}

impl DriftSeverity {
    /// The severity's place in the order.
    pub fn rank(&self) -> (rank: u8)
        ensures
            rank == severity_rank(*self),
    {
        match self {
            DriftSeverity::Info => 0,
            DriftSeverity::Warning => 1,
            DriftSeverity::Critical => 2,
        }
    }
}

impl DriftReport {
    /// No findings at all.
    pub fn is_clean(&self) -> (clean: bool)
        ensures
            clean == (self@.len() == 0),
    {
        self.findings.len() == 0
    }

    /// The highest severity among the findings; none for a clean report.
    pub fn highest_severity(&self) -> (highest: Option<&DriftSeverity>)
        ensures
            highest is None <==> self@.len() == 0,
            highest is Some ==> exists|i: int|
                0 <= i < self@.len() && (#[trigger] self@[i]).severity == *highest->Some_0,
            highest is Some ==> forall|i: int|
                0 <= i < self@.len() ==> severity_rank((#[trigger] self@[i]).severity)
                    <= severity_rank(*highest->Some_0),
    {
        let n = self.findings.len();
        if n == 0 {
            return None;
        }
        let mut best: usize = 0;
        let mut i: usize = 1;
        while i < n
            invariant
                n == self.findings@.len(),
                1 <= i <= n,
                best < i,
                forall|j: int|
                    0 <= j < i ==> severity_rank((#[trigger] self@[j]).severity) <= severity_rank(
                        self@[best as int].severity,
                    ),
            decreases n - i,
        {
            if self.findings[i].severity.rank() >= self.findings[best].severity.rank() {
                best = i;
            }
            i += 1;
        }
        assert(self@[best as int].severity == self.findings@[best as int].severity);
        Some(&self.findings[best].severity)
    }
}

/// The finding of a snapshot that moved under a table believed stable.
pub open spec fn unexpected_mutation_finding() -> DriftFindingView {
    DriftFindingView {
        drift_type: DriftType::UnexpectedMutation,
        severity: DriftSeverity::Warning,
        message: "table snapshot changed while expected state is ACTIVE"@,
    }
}

/// The finding of a schema identifier that no schema can have.
pub open spec fn schema_mismatch_finding() -> DriftFindingView {
    DriftFindingView {
        drift_type: DriftType::SchemaMismatch,
        severity: DriftSeverity::Critical,
        message: "invalid schema identifier detected"@,
    }
}

/// The first rule fires when the table is expected to be `Active` and the
/// catalog reports a current snapshot.
pub open spec fn unexpected_mutation(expected: TableState, snapshot_id: Option<i64>) -> bool {
    expected == TableState::Active && snapshot_id is Some
}

/// The second rule fires on a negative schema identifier.
pub open spec fn schema_mismatch(schema_id: i32) -> bool {
    schema_id < 0
}

/// The findings for an expected state and a reported one. The rules are
/// independent; each fires at most once, in this order.
pub open spec fn drift_findings(
    expected: TableState,
    snapshot_id: Option<i64>,
    schema_id: i32,
) -> Seq<DriftFindingView> {
    let first = if unexpected_mutation(expected, snapshot_id) {
        seq![unexpected_mutation_finding()]
    } else {
        Seq::empty()
    };
    let second = if schema_mismatch(schema_id) {
        seq![schema_mismatch_finding()]
    } else {
        Seq::empty()
    };
    first + second
}

/// For a table expected to be `Active` whose catalog reports a snapshot,
/// the report starts with the unexpected mutation, at `Warning`, and holds
/// no second finding of that type.
pub proof fn lemma_active_with_snapshot(snapshot_id: Option<i64>, schema_id: i32)
    requires
        snapshot_id is Some,
    ensures
        ({
            let findings = drift_findings(TableState::Active, snapshot_id, schema_id);
            &&& findings.len() >= 1
            &&& findings[0].drift_type == DriftType::UnexpectedMutation
            &&& findings[0].severity == DriftSeverity::Warning
            &&& forall|i: int|
                1 <= i < findings.len() ==> (#[trigger] findings[i]).drift_type
                    != DriftType::UnexpectedMutation
            &&& findings.len() == if schema_id < 0 {
                2nat
            } else {
                1nat
            }
        }),
{
}

/// Detects and classifies drift between the expected and the actual state.
pub fn detect_drift(expected: &TableState, actual: &IcebergTableState) -> (report: DriftReport)
    ensures
        report@ == drift_findings(*expected, actual.current_snapshot_id, actual.current_schema_id),
{
    let mut findings: Vec<DriftFinding> = Vec::new();
    if *expected == TableState::Active && actual.current_snapshot_id.is_some() {
        findings.push(
            DriftFinding {
                drift_type: DriftType::UnexpectedMutation,
                severity: DriftSeverity::Warning,
                message: String::from_str("table snapshot changed while expected state is ACTIVE"),
            },
        );
    }
    if actual.current_schema_id < 0 {
        findings.push(
            DriftFinding {
                drift_type: DriftType::SchemaMismatch,
                severity: DriftSeverity::Critical,
                message: String::from_str("invalid schema identifier detected"),
            },
        );
    }
    let report = DriftReport { findings };
    assert(report@ =~= drift_findings(
        *expected,
        actual.current_snapshot_id,
        actual.current_schema_id,
    ));
    report
}

} // verus!
