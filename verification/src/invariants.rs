//! The invariant framework: rules that must hold across every state
//! transition, evaluated in the order they were registered.

use vstd::prelude::*;
use vstd::string::StringExecFns;
use crate::log::{TableEvent, TableEventView};
use crate::state::TableState;

verus! {

/// Result of evaluating one invariant.
#[derive(Debug, PartialEq, Eq)]
pub enum InvariantResult {
    Pass,
    Fail(String),
}

/// An `InvariantResult` with the reason as a sequence of characters.
pub enum InvariantResultView {
    Pass,
    Fail(Seq<char>),
}

impl View for InvariantResult {
    type V = InvariantResultView;

    open spec fn view(&self) -> InvariantResultView {
        match self {
            InvariantResult::Pass => InvariantResultView::Pass,
            InvariantResult::Fail(reason) => InvariantResultView::Fail(reason@),
        }
    }
}

impl Clone for InvariantResult {
    fn clone(&self) -> (r: Self)
        ensures
            r@ == self@,
    {
        match self {
            InvariantResult::Pass => InvariantResult::Pass,
            InvariantResult::Fail(reason) => InvariantResult::Fail(reason.clone()),
        }
    }
}

/// A rule over one transition.
///
/// A rule is pure: what it answers depends on the rule and on the
/// transition, and on nothing else. `name_spec` and `verdict` name those
/// answers, so that contracts can speak of them; `name` and `validate`
/// compute them. A rule written in verified code defines the two models and
/// is checked against them. For any other rule they are left undetermined
/// and stand for whatever the rule computes.
pub trait Invariant: Send + Sync + Sized {
    /// The rule's name.
    open spec fn name_spec(&self) -> Seq<char> {
        (arbitrary::<spec_fn(Self) -> Seq<char>>())(*self)
    }

    /// The rule's answer for the transition from `previous_state` to
    /// `next_state` on `event`.
    open spec fn verdict(
        &self,
        previous_state: TableState,
        event: TableEventView,
        next_state: TableState,
    ) -> InvariantResultView {
        (arbitrary::<
            spec_fn(Self, TableState, TableEventView, TableState) -> InvariantResultView,
        >())(*self, previous_state, event, next_state)
    }

    fn name(&self) -> (name: &'static str)
        ensures
            name@ == self.name_spec(),
    ;

    fn validate(
        &self,
        previous_state: &TableState,
        event: &TableEvent,
        next_state: &TableState,
    ) -> (result: InvariantResult)
        ensures
            result@ == self.verdict(*previous_state, event@, *next_state),
    ;
}

/// The rule that only lets a table be changed once it is active.
pub struct ActivationFirst;

impl Invariant for ActivationFirst {
    open spec fn name_spec(&self) -> Seq<char> {
        "activation-first"@
    }

    open spec fn verdict(
        &self,
        previous_state: TableState,
        event: TableEventView,
        next_state: TableState,
    ) -> InvariantResultView {
        if previous_state == TableState::Created && next_state == TableState::Mutating {
            InvariantResultView::Fail("cannot mutate table before activation"@)
        } else {
            InvariantResultView::Pass
        }
    }

    fn name(&self) -> (name: &'static str) {
        "activation-first"
    }

    fn validate(
        &self,
        previous_state: &TableState,
        event: &TableEvent,
        next_state: &TableState,
    ) -> (result: InvariantResult) {
        if *previous_state == TableState::Created && *next_state == TableState::Mutating {
            InvariantResult::Fail(String::from_str("cannot mutate table before activation"))
        } else {
            InvariantResult::Pass
        }
    }
}

/// Returned when an invariant is violated.
#[derive(Debug)]
pub struct InvariantViolation {
    pub invariant: &'static str,
    pub reason: String,
}

/// An `InvariantViolation` with its texts as sequences of characters.
pub struct InvariantViolationView {
    pub invariant: Seq<char>,
    pub reason: Seq<char>,
}

impl View for InvariantViolation {
    type V = InvariantViolationView;

    open spec fn view(&self) -> InvariantViolationView {
        InvariantViolationView { invariant: self.invariant@, reason: self.reason@ }
    }
}

/// The text of a violation.
pub open spec fn violation_text(violation: InvariantViolationView) -> Seq<char> {
    "invariant `"@ + violation.invariant + "` violated: "@ + violation.reason
}

impl InvariantViolation {
    /// The violation as one line of text, naming the invariant and giving
    /// the reason.
    pub fn to_string(&self) -> (text: String)
        ensures
            text@ == violation_text(self@),
    {
        String::from_str("invariant `").concat(self.invariant).concat("` violated: ").concat(
            self.reason.as_str(),
        )
    }
}

/// The first violation among the rules from index `from` on, in
/// registration order; `None` if all of them pass.
pub open spec fn first_violation<I: Invariant>(
    rules: Seq<I>,
    from: int,
    previous_state: TableState,
    event: TableEventView,
    next_state: TableState,
) -> Option<InvariantViolationView>
    decreases rules.len() - from,
{
    if from < 0 || from >= rules.len() {
        None
    } else {
        match rules[from].verdict(previous_state, event, next_state) {
            InvariantResultView::Fail(reason) => Some(
                InvariantViolationView { invariant: rules[from].name_spec(), reason },
            ),
            InvariantResultView::Pass => first_violation(
                rules,
                from + 1,
                previous_state,
                event,
                next_state,
            ),
        }
    }
}

/// What an evaluation answers, by its view.
pub open spec fn evaluation_view(r: Result<(), InvariantViolation>) -> Option<
    InvariantViolationView,
> {
    match r {
        Ok(_) => None,
        Err(violation) => Some(violation@),
    }
}

/// The evaluation passes exactly when every rule passes.
pub proof fn lemma_passes_iff_all_pass<I: Invariant>(
    rules: Seq<I>,
    from: int,
    previous_state: TableState,
    event: TableEventView,
    next_state: TableState,
)
    requires
        0 <= from,
    ensures
        first_violation(rules, from, previous_state, event, next_state) is None <==> forall|
            i: int,
        |
            from <= i < rules.len() ==> (#[trigger] rules[i]).verdict(
                previous_state,
                event,
                next_state,
            ) is Pass,
    decreases rules.len() - from,
{
    if from < rules.len() {
        lemma_passes_iff_all_pass(rules, from + 1, previous_state, event, next_state);
        if first_violation(rules, from, previous_state, event, next_state) is None {
            assert forall|i: int| from <= i < rules.len() implies (#[trigger] rules[i]).verdict(
                previous_state,
                event,
                next_state,
            ) is Pass by {
                if i > from {
                }
            }
        }
    }
}

/// A violation is that of the first rule that fails: it carries that rule's
/// name and reason, and every rule registered before it passes.
pub proof fn lemma_violation_is_first_failure<I: Invariant>(
    rules: Seq<I>,
    from: int,
    previous_state: TableState,
    event: TableEventView,
    next_state: TableState,
) -> (at: int)
    requires
        0 <= from,
        first_violation(rules, from, previous_state, event, next_state) is Some,
    ensures
        from <= at < rules.len(),
        rules[at].verdict(previous_state, event, next_state) == InvariantResultView::Fail(
            first_violation(rules, from, previous_state, event, next_state)->Some_0.reason,
        ),
        rules[at].name_spec() == first_violation(
            rules,
            from,
            previous_state,
            event,
            next_state,
        )->Some_0.invariant,
        forall|i: int|
            from <= i < at ==> (#[trigger] rules[i]).verdict(previous_state, event, next_state)
                is Pass,
    decreases rules.len() - from,
{
    if rules[from].verdict(previous_state, event, next_state) is Fail {
        from
    } else {
        lemma_violation_is_first_failure(rules, from + 1, previous_state, event, next_state)
    }
}

/// Invariant engine: an ordered registry of rules of one kind.
pub struct InvariantEngine<I: Invariant> {
    invariants: Vec<I>,
}

impl<I: Invariant> View for InvariantEngine<I> {
    type V = Seq<I>;

    closed spec fn view(&self) -> Seq<I> {
        self.invariants@
    }
}

impl<I: Invariant> InvariantEngine<I> {
    /// An engine with no rules.
    pub fn new() -> (engine: Self)
        ensures
            engine@ == Seq::<I>::empty(),
    {
        InvariantEngine { invariants: Vec::new() }
    }

    /// Registers `rule` after the rules already there.
    pub fn register(&mut self, rule: I)
        ensures
            final(self)@ == old(self)@.push(rule),
    {
        self.invariants.push(rule);
    }

    /// Evaluates the rules in registration order and stops at the first
    /// failure. An engine without rules passes.
    pub fn evaluate(
        &self,
        previous_state: &TableState,
        event: &TableEvent,
        next_state: &TableState,
    ) -> (r: Result<(), InvariantViolation>)
        ensures
            evaluation_view(r) == first_violation(
                self@,
                0,
                *previous_state,
                event@,
                *next_state,
            ),
            self@.len() == 0 ==> r is Ok,
            r is Ok <==> forall|i: int|
                0 <= i < self@.len() ==> (#[trigger] self@[i]).verdict(
                    *previous_state,
                    event@,
                    *next_state,
                ) is Pass,
    {
        proof {
            lemma_passes_iff_all_pass(self@, 0, *previous_state, event@, *next_state);
        }
        let mut i: usize = 0;
        while i < self.invariants.len()
            invariant
                i <= self.invariants@.len(),
                first_violation(self@, 0, *previous_state, event@, *next_state)
                    == first_violation(self@, i as int, *previous_state, event@, *next_state),
            decreases self.invariants@.len() - i,
        {
            match self.invariants[i].validate(previous_state, event, next_state) {
                InvariantResult::Pass => {},
                InvariantResult::Fail(reason) => {
                    return Err(
                        InvariantViolation { invariant: self.invariants[i].name(), reason },
                    );
                },
            }
            i += 1;
        }
        Ok(())
    }
}

impl<I: Invariant> Default for InvariantEngine<I> {
    fn default() -> (engine: Self)
        ensures
            engine@ == Seq::<I>::empty(),
    {
        InvariantEngine::new()
    }
}

} // verus!
