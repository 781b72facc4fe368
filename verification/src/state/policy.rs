//! Policy evaluation: from each drift finding to the action it calls for.
//! Nothing here acts; a plan is advice.

use vstd::prelude::*;
use vstd::string::StringExecFns;
use crate::state::drift::{DriftFindingView, DriftReport, DriftSeverity};
use crate::state::policy_config::{PolicyConfig, PolicyRuleView};

verus! {

/// Intended action for a detected drift.
#[derive(Debug, Clone, Copy, PartialEq, Eq, Structural)]
pub enum IntendedAction {
    /// Log only, no escalation.
    Observe,
    /// Notify operators or governance systems.
    Alert,
    /// Would block or roll back, were anything enforced.
    Enforce,
}

/// A single policy decision.
#[derive(Debug, PartialEq, Eq)]
pub struct PolicyDecision {
    pub severity: DriftSeverity,
    pub action: IntendedAction,
    pub reason: String,
}

/// A `PolicyDecision` with its reason as a sequence of characters.
pub struct PolicyDecisionView {
    pub severity: DriftSeverity,
    pub action: IntendedAction,
    pub reason: Seq<char>,
}

impl View for PolicyDecision {
    type V = PolicyDecisionView;

    open spec fn view(&self) -> PolicyDecisionView {
        PolicyDecisionView { severity: self.severity, action: self.action, reason: self.reason@ }
    }
}

impl Clone for PolicyDecision {
    fn clone(&self) -> (r: Self)
        ensures
            r@ == self@,
    {
        PolicyDecision { severity: self.severity, action: self.action, reason: self.reason.clone() }
    }
}

/// Output of policy evaluation: one decision per finding, in their order.
#[derive(Debug, PartialEq, Eq)]
pub struct DecisionPlan {
    pub decisions: Vec<PolicyDecision>,
}

impl View for DecisionPlan {
    type V = Seq<PolicyDecisionView>;

    open spec fn view(&self) -> Seq<PolicyDecisionView> {
        Seq::new(self.decisions@.len(), |i: int| self.decisions@[i]@)
    }
}

impl Clone for DecisionPlan {
    fn clone(&self) -> (r: Self)
        ensures
            r@ == self@,
    {
        let mut decisions: Vec<PolicyDecision> = Vec::new();
        let mut i: usize = 0;
        while i < self.decisions.len()
            invariant
                i <= self.decisions@.len(),
                decisions@.len() == i,
                forall|j: int| 0 <= j < i ==> (#[trigger] decisions@[j])@ == self.decisions@[j]@,
            decreases self.decisions@.len() - i,
        {
            decisions.push(self.decisions[i].clone());
            i += 1;
        }
        let r = DecisionPlan { decisions };
        assert(r@ =~= self@);
        r
    }
}

impl DecisionPlan {
    /// No decisions at all.
    pub fn is_empty(&self) -> (empty: bool)
        ensures
            empty == (self@.len() == 0),
    {
        self.decisions.len() == 0
    }
}

/// The built-in mapping from a severity to its action.
pub open spec fn builtin_action(severity: DriftSeverity) -> IntendedAction {
    match severity {
        DriftSeverity::Info => IntendedAction::Observe,
        DriftSeverity::Warning => IntendedAction::Alert,
        DriftSeverity::Critical => IntendedAction::Enforce,
    }
}

/// The reason the built-in mapping gives.
pub open spec fn builtin_reason(severity: DriftSeverity) -> Seq<char> {
    match severity {
        DriftSeverity::Info => "informational drift, no action required"@,
        DriftSeverity::Warning => "warning-level drift, operator attention recommended"@,
        DriftSeverity::Critical => "critical drift detected, enforcement would be required"@,
    }
}

/// The decision of the built-in mapping for one severity.
pub open spec fn builtin_decision(severity: DriftSeverity) -> PolicyDecisionView {
    PolicyDecisionView {
        severity,
        action: builtin_action(severity),
        reason: builtin_reason(severity),
    }
}

/// The plan of the built-in mapping: finding by finding.
pub open spec fn builtin_plan(findings: Seq<DriftFindingView>) -> Seq<PolicyDecisionView> {
    Seq::new(findings.len(), |i: int| builtin_decision(findings[i].severity))
}

/// The first rule for `severity` among the rules from index `from` on.
pub open spec fn rule_for(rules: Seq<PolicyRuleView>, from: int, severity: DriftSeverity) -> Option<
    PolicyRuleView,
>
    decreases rules.len() - from,
{
    if from < 0 || from >= rules.len() {
        None
    } else if rules[from].severity == severity {
        Some(rules[from])
    } else {
        rule_for(rules, from + 1, severity)
    }
}

/// The decision a configuration gives for one severity: that of its first
/// rule for the severity, and the built-in one where it has no such rule.
pub open spec fn configured_decision(
    rules: Seq<PolicyRuleView>,
    severity: DriftSeverity,
) -> PolicyDecisionView {
    match rule_for(rules, 0, severity) {
        Some(rule) => PolicyDecisionView { severity, action: rule.action, reason: rule.reason },
        None => builtin_decision(severity),
    }
}

/// The plan of a configuration: finding by finding.
pub open spec fn configured_plan(
    findings: Seq<DriftFindingView>,
    rules: Seq<PolicyRuleView>,
) -> Seq<PolicyDecisionView> {
    Seq::new(findings.len(), |i: int| configured_decision(rules, findings[i].severity))
}

/// A plan has one decision per finding and keeps their order: the decision
/// at each place is the one for the finding at that place, and carries its
/// severity. A clean report gives an empty plan.
pub proof fn lemma_one_decision_per_finding(
    findings: Seq<DriftFindingView>,
    rules: Seq<PolicyRuleView>,
)
    ensures
        configured_plan(findings, rules).len() == findings.len(),
        builtin_plan(findings).len() == findings.len(),
        forall|i: int|
            0 <= i < findings.len() ==> (#[trigger] configured_plan(findings, rules)[i]).severity
                == findings[i].severity,
        forall|i: int|
            0 <= i < findings.len() ==> (#[trigger] builtin_plan(findings)[i]).severity
                == findings[i].severity,
        findings.len() == 0 ==> configured_plan(findings, rules) == Seq::<
            PolicyDecisionView,
        >::empty(),
        findings.len() == 0 ==> builtin_plan(findings) == Seq::<PolicyDecisionView>::empty(),
{
    if findings.len() == 0 {
        assert(configured_plan(findings, rules) =~= Seq::<PolicyDecisionView>::empty());
        assert(builtin_plan(findings) =~= Seq::<PolicyDecisionView>::empty());
    }
}

/// The decision of the built-in mapping for one severity.
fn decide_builtin(severity: DriftSeverity) -> (decision: PolicyDecision)
    ensures
        decision@ == builtin_decision(severity),
{
    let (action, reason) = match severity {
        DriftSeverity::Info => (
            IntendedAction::Observe,
            "informational drift, no action required",
        ),
        DriftSeverity::Warning => (
            IntendedAction::Alert,
            "warning-level drift, operator attention recommended",
        ),
        DriftSeverity::Critical => (
            IntendedAction::Enforce,
            "critical drift detected, enforcement would be required",
        ),
    };
    PolicyDecision { severity, action, reason: String::from_str(reason) }
}

/// The decision of `config` for one severity.
fn decide_configured(config: &PolicyConfig, severity: DriftSeverity) -> (decision: PolicyDecision)
    ensures
        decision@ == configured_decision(config@, severity),
{
    let mut i: usize = 0;
    while i < config.rules.len()
        invariant
            i <= config.rules@.len(),
            rule_for(config@, 0, severity) == rule_for(config@, i as int, severity),
        decreases config.rules@.len() - i,
    {
        let rule = &config.rules[i];
        assert(config@[i as int] == rule@);
        if rule.severity == severity {
            return PolicyDecision {
                severity,
                action: rule.action,
                reason: rule.reason.clone(),
            };
        }
        i += 1;
    }
    decide_builtin(severity)
}

/// Evaluates a report under the built-in mapping.
pub fn evaluate_drift_policy(report: &DriftReport) -> (plan: DecisionPlan)
    ensures
        plan@ == builtin_plan(report@),
        plan@.len() == report@.len(),
        report@.len() == 0 ==> plan@.len() == 0,
{
    let mut decisions: Vec<PolicyDecision> = Vec::new();
    let mut i: usize = 0;
    while i < report.findings.len()
        invariant
            i <= report.findings@.len(),
            decisions@.len() == i,
            forall|j: int|
                0 <= j < i ==> (#[trigger] decisions@[j])@ == builtin_decision(
                    report@[j].severity,
                ),
        decreases report.findings@.len() - i,
    {
        assert(report@[i as int] == report.findings@[i as int]@);
        decisions.push(decide_builtin(report.findings[i].severity));
        i += 1;
    }
    let plan = DecisionPlan { decisions };
    assert(plan@ =~= builtin_plan(report@));
    plan
}

/// Evaluates a report under `config`: for each finding, in order, the
/// decision of the first rule for its severity.
pub fn evaluate_drift_policy_with_config(report: &DriftReport, config: &PolicyConfig) -> (plan:
    DecisionPlan)
    ensures
        plan@ == configured_plan(report@, config@),
        plan@.len() == report@.len(),
        report@.len() == 0 ==> plan@.len() == 0,
{
    let mut decisions: Vec<PolicyDecision> = Vec::new();
    let mut i: usize = 0;
    while i < report.findings.len()
        invariant
            i <= report.findings@.len(),
            decisions@.len() == i,
            forall|j: int|
                0 <= j < i ==> (#[trigger] decisions@[j])@ == configured_decision(
                    config@,
                    report@[j].severity,
                ),
        decreases report.findings@.len() - i,
    {
        assert(report@[i as int] == report.findings@[i as int]@);
        decisions.push(decide_configured(config, report.findings[i].severity));
        i += 1;
    }
    let plan = DecisionPlan { decisions };
    assert(plan@ =~= configured_plan(report@, config@));
    plan
}

} // verus!
