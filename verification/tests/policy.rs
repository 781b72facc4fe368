use axiom_kernel::state::drift::DriftSeverity::{Critical, Info, Warning};
use axiom_kernel::state::drift::{DriftFinding, DriftReport, DriftSeverity, DriftType};
use axiom_kernel::state::policy::{
    evaluate_drift_policy, evaluate_drift_policy_with_config, IntendedAction, PolicyDecision,
};
use axiom_kernel::state::policy_config::{PolicyConfig, PolicyRule};

fn report_of(severities: &[DriftSeverity]) -> DriftReport {
    DriftReport {
        findings: severities
            .iter()
            .map(|severity| DriftFinding {
                drift_type: DriftType::SnapshotMismatch,
                severity: *severity,
                message: "drift".into(),
            })
            .collect(),
    }
}

fn rule(severity: DriftSeverity, action: IntendedAction, reason: &str) -> PolicyRule {
    PolicyRule { severity, action, reason: reason.into() }
}

fn decision(severity: DriftSeverity, action: IntendedAction, reason: &str) -> PolicyDecision {
    PolicyDecision { severity, action, reason: reason.into() }
}

#[test]
fn policy_maps_severity_to_action() {
    let report = DriftReport {
        findings: vec![
            DriftFinding {
                drift_type: DriftType::UnexpectedMutation,
                severity: DriftSeverity::Warning,
                message: "mutation".into(),
            },
            DriftFinding {
                drift_type: DriftType::SchemaMismatch,
                severity: DriftSeverity::Critical,
                message: "schema".into(),
            },
        ],
    };

    let plan = evaluate_drift_policy(&report);

    assert_eq!(plan.decisions.len(), 2);
    assert_eq!(plan.decisions[0].action, IntendedAction::Alert);
    assert_eq!(plan.decisions[1].action, IntendedAction::Enforce);
}

#[test]
fn empty_report_produces_empty_plan() {
    let report = DriftReport { findings: vec![] };
    let plan = evaluate_drift_policy(&report);
    assert!(plan.is_empty());
}

#[test]
fn empty_report_produces_empty_plan_under_any_config() {
    let report = DriftReport { findings: vec![] };
    assert!(evaluate_drift_policy_with_config(&report, &PolicyConfig::default_policy()).is_empty());
    assert!(evaluate_drift_policy_with_config(&report, &PolicyConfig { rules: vec![] }).is_empty());
}

#[test]
fn builtin_mapping_gives_one_decision_per_finding_in_order() {
    let plan = evaluate_drift_policy(&report_of(&[Critical, Info, Warning, Info]));
    assert!(!plan.is_empty());
    assert_eq!(
        plan.decisions,
        vec![
            decision(
                Critical,
                IntendedAction::Enforce,
                "critical drift detected, enforcement would be required"
            ),
            decision(Info, IntendedAction::Observe, "informational drift, no action required"),
            decision(
                Warning,
                IntendedAction::Alert,
                "warning-level drift, operator attention recommended"
            ),
            decision(Info, IntendedAction::Observe, "informational drift, no action required"),
        ]
    );
}

#[test]
fn default_policy_has_the_three_rules() {
    let config = PolicyConfig::default_policy();
    assert_eq!(config.rules.len(), 3);
    assert_eq!(config.rules[0].severity, DriftSeverity::Info);
    assert_eq!(config.rules[0].action, IntendedAction::Observe);
    assert_eq!(config.rules[0].reason, "informational drift");
    assert_eq!(config.rules[1].severity, DriftSeverity::Warning);
    assert_eq!(config.rules[1].action, IntendedAction::Alert);
    assert_eq!(config.rules[1].reason, "warning-level drift");
    assert_eq!(config.rules[2].severity, DriftSeverity::Critical);
    assert_eq!(config.rules[2].action, IntendedAction::Enforce);
    assert_eq!(config.rules[2].reason, "critical drift");
}

#[test]
fn default_policy_decides_by_severity() {
    let plan = evaluate_drift_policy_with_config(
        &report_of(&[Warning, Warning, Critical, Info]),
        &PolicyConfig::default_policy(),
    );
    assert_eq!(
        plan.decisions,
        vec![
            decision(Warning, IntendedAction::Alert, "warning-level drift"),
            decision(Warning, IntendedAction::Alert, "warning-level drift"),
            decision(Critical, IntendedAction::Enforce, "critical drift"),
            decision(Info, IntendedAction::Observe, "informational drift"),
        ]
    );
}

#[test]
fn configured_rules_override_the_builtin_mapping() {
    let config = PolicyConfig {
        rules: vec![
            rule(Critical, IntendedAction::Alert, "page the owner"),
            rule(Warning, IntendedAction::Observe, "seen it before"),
            rule(Critical, IntendedAction::Enforce, "never reached"),
        ],
    };
    let plan = evaluate_drift_policy_with_config(&report_of(&[Warning, Critical, Info]), &config);
    assert_eq!(
        plan.decisions,
        vec![
            decision(Warning, IntendedAction::Observe, "seen it before"),
            decision(Critical, IntendedAction::Alert, "page the owner"),
            decision(Info, IntendedAction::Observe, "informational drift, no action required"),
        ]
    );
}

#[test]
fn cloned_policy_decides_alike() {
    let config = PolicyConfig::default_policy().clone();
    assert_eq!(config.rules.len(), 3);
    assert_eq!(config.rules[2].reason, "critical drift");
    let rule = rule(Warning, IntendedAction::Enforce, "strict").clone();
    assert_eq!(rule.severity, Warning);
    assert_eq!(rule.action, IntendedAction::Enforce);
    assert_eq!(rule.reason, "strict");
    let decision = decision(Info, IntendedAction::Observe, "fine");
    assert_eq!(decision.clone(), decision);
}
