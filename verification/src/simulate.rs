//! The whole pipeline in one dry run: log, replay, drift, policy, plan.

use vstd::prelude::*;
use vstd::string::StringExecFns;
use crate::adapters::iceberg::IcebergTableState;
use crate::invariants::{Invariant, InvariantEngine};
use crate::log::{MetadataLog, MetadataLogStore};
use crate::replay::{
    derived_state, replay_error_text, replay_table_state, ReplayError, ReplayErrorView,
};
use crate::state::drift::{detect_drift, drift_findings, DriftReport};
use crate::state::policy::{configured_plan, evaluate_drift_policy_with_config, DecisionPlan};
use crate::state::policy_config::PolicyConfig;
use crate::state::TableState;

verus! {

/// Result of a full simulation run.
#[derive(Debug)]
pub struct SimulationResult {
    pub expected_state: TableState,
    pub drift_report: DriftReport,
    pub decision_plan: DecisionPlan,
}

/// Errors that can occur during simulation.
#[derive(Debug)]
pub enum SimulationError {
    /// Replay failed, so there is no expected state to go on with.
    Replay(ReplayError),
}

impl View for SimulationError {
    type V = ReplayErrorView;

    open spec fn view(&self) -> ReplayErrorView {
        match self {
            SimulationError::Replay(error) => error@,
        }
    }
}

impl From<ReplayError> for SimulationError {
    fn from(error: ReplayError) -> (r: SimulationError) {
        SimulationError::Replay(error)
    }
}

impl vstd::std_specs::convert::FromSpecImpl<ReplayError> for SimulationError {
    open spec fn obeys_from_spec() -> bool {
        true
    }

    open spec fn from_spec(error: ReplayError) -> SimulationError {
        SimulationError::Replay(error)
    }
}

impl SimulationError {
    /// The error as one line of text.
    pub fn to_string(&self) -> (text: String)
        ensures
            text@ == "replay failed: "@ + replay_error_text(self@),
    {
        match self {
            SimulationError::Replay(error) => String::from_str("replay failed: ").concat(
                error.to_string().as_str(),
            ),
        }
    }
}

/// `result` is the complete result for a table expected in `expected`.
pub open spec fn is_result_for(
    result: SimulationResult,
    expected: TableState,
    actual: IcebergTableState,
    policy: PolicyConfig,
) -> bool {
    let findings = drift_findings(expected, actual.current_snapshot_id, actual.current_schema_id);
    &&& result.expected_state == expected
    &&& result.drift_report@ == findings
    &&& result.decision_plan@ == configured_plan(findings, policy@)
}

/// Runs the full simulation: derives the expected state by replay, detects
/// drift against `actual_state`, and evaluates `policy` on what it found.
/// The answer is either the complete result or the error of the replay;
/// there is no partial result.
pub fn simulate_table<S: MetadataLogStore, I: Invariant>(
    log: &MetadataLog<S>,
    invariants: &InvariantEngine<I>,
    actual_state: &IcebergTableState,
    policy: &PolicyConfig,
) -> (r: Result<SimulationResult, SimulationError>)
    requires
        log.well_formed(),
    ensures
        match derived_state(log@, invariants@) {
            Ok(expected) => r is Ok && is_result_for(r->Ok_0, expected, *actual_state, *policy),
            Err(error) => r is Err && r->Err_0@ == error,
        },
{
    let expected_state = match replay_table_state(log, invariants) {
        Ok(state) => state,
        Err(error) => {
            return Err(SimulationError::Replay(error));
        },
    };
    let drift_report = detect_drift(&expected_state, actual_state);
    let decision_plan = evaluate_drift_policy_with_config(&drift_report, policy);
    Ok(SimulationResult { expected_state, drift_report, decision_plan })
}

} // verus!
