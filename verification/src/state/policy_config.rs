//! Policy configuration: which action each severity of drift calls for.

use vstd::prelude::*;
use vstd::string::StringExecFns;
use crate::state::drift::DriftSeverity;
use crate::state::policy::IntendedAction;

verus! {

/// One rule: drift of this severity calls for this action, for this reason.
#[derive(Debug)]
pub struct PolicyRule {
    pub severity: DriftSeverity,
    pub action: IntendedAction,
    pub reason: String,
}

/// A `PolicyRule` with its reason as a sequence of characters.
pub struct PolicyRuleView {
    pub severity: DriftSeverity,
    pub action: IntendedAction,
    pub reason: Seq<char>,
}

impl View for PolicyRule {
    type V = PolicyRuleView;

    open spec fn view(&self) -> PolicyRuleView {
        PolicyRuleView { severity: self.severity, action: self.action, reason: self.reason@ }
    }
}

impl Clone for PolicyRule {
    fn clone(&self) -> (r: Self)
        ensures
            r@ == self@,
    {
        PolicyRule { severity: self.severity, action: self.action, reason: self.reason.clone() }
    }
}

/// A policy: rules, consulted in order.
#[derive(Debug)]
pub struct PolicyConfig {
    pub rules: Vec<PolicyRule>,
}

impl View for PolicyConfig {
    type V = Seq<PolicyRuleView>;

    open spec fn view(&self) -> Seq<PolicyRuleView> {
        Seq::new(self.rules@.len(), |i: int| self.rules@[i]@)
    }
}

impl Clone for PolicyConfig {
    fn clone(&self) -> (r: Self)
        ensures
            r@ == self@,
    {
        let mut rules: Vec<PolicyRule> = Vec::new();
        let mut i: usize = 0;
        while i < self.rules.len()
            invariant
                i <= self.rules@.len(),
                rules@.len() == i,
                forall|j: int| 0 <= j < i ==> (#[trigger] rules@[j])@ == self.rules@[j]@,
            decreases self.rules@.len() - i,
        {
            rules.push(self.rules[i].clone());
            i += 1;
        }
        let r = PolicyConfig { rules };
        assert(r@ =~= self@);
        r
    }
}

/// The rules of the built-in policy.
pub open spec fn default_rules() -> Seq<PolicyRuleView> {
    seq![
        PolicyRuleView {
            severity: DriftSeverity::Info,
            action: IntendedAction::Observe,
            reason: "informational drift"@,
        },
        PolicyRuleView {
            severity: DriftSeverity::Warning,
            action: IntendedAction::Alert,
            reason: "warning-level drift"@,
        },
        PolicyRuleView {
            severity: DriftSeverity::Critical,
            action: IntendedAction::Enforce,
            reason: "critical drift"@,
        },
    ]
}

impl PolicyConfig {
    /// The built-in policy, for when no configuration is supplied:
    /// observe `Info`, alert on `Warning`, enforce on `Critical`.
    pub fn default_policy() -> (config: Self)
        ensures
            config@ == default_rules(),
    {
        let mut rules: Vec<PolicyRule> = Vec::new();
        rules.push(
            PolicyRule {
                severity: DriftSeverity::Info,
                action: IntendedAction::Observe,
                reason: String::from_str("informational drift"),
            },
        );
        rules.push(
            PolicyRule {
                severity: DriftSeverity::Warning,
                action: IntendedAction::Alert,
                reason: String::from_str("warning-level drift"),
            },
        );
        rules.push(
            PolicyRule {
                severity: DriftSeverity::Critical,
                action: IntendedAction::Enforce,
                reason: String::from_str("critical drift"),
            },
        );
        let config = PolicyConfig { rules };
        assert(config@ =~= default_rules());
        config
    }
}

} // verus!
