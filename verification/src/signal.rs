//! A single-use completion slot with first-winner resolution.
//!
//! A host may report both the success and the failure of one load, in either
//! order. The slot accepts the first report and ignores every later one. All
//! operations take the slot by exclusive reference, so two reports can never
//! act on it at once: whoever shares a slot between callbacks has to hand
//! that exclusive access out under a lock.

use vstd::prelude::*;

verus! {

/// How an asset load ended.
#[derive(Debug, PartialEq, Eq)]
pub enum LoadOutcome {
    /// The asset is ready for use.
    Ready,
    /// The host reported a failure.
    Failed { reason: String },
}

/// Where a [`LoadSignal`] stands.
pub enum SignalState {
    /// No report has arrived yet.
    Pending,
    /// The first report arrived and waits to be collected.
    Resolved(LoadOutcome),
    /// The first report was collected.
    Consumed,
}

/// One step that a holder of the slot can take.
pub enum SignalOp {
    /// A callback reports an outcome.
    Resolve(LoadOutcome),
    /// The waiter asks for the recorded outcome.
    Take,
}

/// The state after a report of `outcome`: recorded if it is the first,
/// ignored otherwise.
pub open spec fn spec_resolve(s: SignalState, outcome: LoadOutcome) -> SignalState {
    match s {
        SignalState::Pending => SignalState::Resolved(outcome),
        _ => s,
    }
}

/// What the waiter receives when it asks in state `s`.
pub open spec fn spec_taken(s: SignalState) -> Option<LoadOutcome> {
    match s {
        SignalState::Resolved(outcome) => Some(outcome),
        _ => None,
    }
}

/// The state after the waiter asked in state `s`.
pub open spec fn spec_after_take(s: SignalState) -> SignalState {
    match s {
        SignalState::Resolved(_) => SignalState::Consumed,
        _ => s,
    }
}

/// The state after one step.
pub open spec fn spec_apply(s: SignalState, op: SignalOp) -> SignalState {
    match op {
        SignalOp::Resolve(outcome) => spec_resolve(s, outcome),
        SignalOp::Take => spec_after_take(s),
    }
}

/// What one step hands to the waiter.
pub open spec fn spec_yield(s: SignalState, op: SignalOp) -> Option<LoadOutcome> {
    match op {
        SignalOp::Resolve(_) => None,
        SignalOp::Take => spec_taken(s),
    }
}

/// The state after the steps `ops`, taken in order from state `s`.
pub open spec fn spec_run(s: SignalState, ops: Seq<SignalOp>) -> SignalState
    decreases ops.len(),
{
    if ops.len() == 0 {
        s
    } else {
        spec_run(spec_apply(s, ops[0]), ops.drop_first())
    }
}

/// Every outcome handed to the waiter while the steps `ops` are taken in
/// order from state `s`.
pub open spec fn spec_observed(s: SignalState, ops: Seq<SignalOp>) -> Seq<LoadOutcome>
    decreases ops.len(),
{
    if ops.len() == 0 {
        Seq::empty()
    } else {
        let rest = spec_observed(spec_apply(s, ops[0]), ops.drop_first());
        match spec_yield(s, ops[0]) {
            Some(outcome) => seq![outcome] + rest,
            None => rest,
        }
    }
}

/// The outcome of the earliest report among `ops`, if there is one.
pub open spec fn spec_first_report(ops: Seq<SignalOp>) -> Option<LoadOutcome>
    decreases ops.len(),
{
    if ops.len() == 0 {
        None
    } else {
        match ops[0] {
            SignalOp::Resolve(outcome) => Some(outcome),
            SignalOp::Take => spec_first_report(ops.drop_first()),
        }
    }
}

/// The single-use completion slot.
pub struct LoadSignal {
    state: SignalState,
}

impl View for LoadSignal {
    type V = SignalState;

    closed spec fn view(&self) -> SignalState {
        self.state
    }
}

impl LoadSignal {
    /// A fresh slot, with no report recorded.
    pub fn create() -> (signal: LoadSignal)
        ensures
            signal@ == SignalState::Pending,
    {
        LoadSignal { state: SignalState::Pending }
    }

    /// Reports `outcome`. The first report is recorded and `true` comes
    /// back: the waiter is to be woken. Any later report changes nothing and
    /// gives `false`.
    pub fn resolve(&mut self, outcome: LoadOutcome) -> (accepted: bool)
        ensures
            final(self)@ == spec_resolve(old(self)@, outcome),
            accepted == (old(self)@ is Pending),
    {
        match self.state {
            SignalState::Pending => {
                self.state = SignalState::Resolved(outcome);
                true
            },
            _ => false,
        }
    }

    /// Hands the recorded outcome to the waiter, once. `None` means that no
    /// report has arrived yet, or that the outcome was collected before.
    pub fn take_outcome(&mut self) -> (taken: Option<LoadOutcome>)
        ensures
            taken == spec_taken(old(self)@),
            final(self)@ == spec_after_take(old(self)@),
    {
        let mut current = SignalState::Consumed;
        core::mem::swap(&mut self.state, &mut current);
        match current {
            SignalState::Resolved(outcome) => Some(outcome),
            SignalState::Pending => {
                self.state = SignalState::Pending;
                None
            },
            SignalState::Consumed => None,
        }
    }

    /// Whether a report has been accepted.
    pub fn is_resolved(&self) -> (resolved: bool)
        ensures
            resolved == !(self@ is Pending),
    {
        match self.state {
            SignalState::Pending => false,
            _ => true,
        }
    }
}

/// A slot whose outcome was collected never yields again.
pub proof fn lemma_consumed_is_silent(ops: Seq<SignalOp>)
    ensures
        spec_observed(SignalState::Consumed, ops).len() == 0,
        spec_run(SignalState::Consumed, ops) == SignalState::Consumed,
    decreases ops.len(),
{
    if ops.len() > 0 {
        lemma_consumed_is_silent(ops.drop_first());
    }
}

/// A slot that holds `outcome` yields nothing else, and at most once,
/// whatever is reported afterwards.
pub proof fn lemma_resolved_yields_its_outcome(outcome: LoadOutcome, ops: Seq<SignalOp>)
    ensures
        spec_observed(SignalState::Resolved(outcome), ops).len() <= 1,
        spec_observed(SignalState::Resolved(outcome), ops).len() == 1 ==> spec_observed(
            SignalState::Resolved(outcome),
            ops,
        )[0] == outcome,
        spec_observed(SignalState::Resolved(outcome), ops).len() == 1 <==> exists|i: int|
            0 <= i < ops.len() && ops[i] is Take,
    decreases ops.len(),
{
    if ops.len() > 0 {
        let rest = ops.drop_first();
        match ops[0] {
            SignalOp::Resolve(_) => {
                lemma_resolved_yields_its_outcome(outcome, rest);
                if exists|i: int| 0 <= i < rest.len() && rest[i] is Take {
                    let i = choose|i: int| 0 <= i < rest.len() && rest[i] is Take;
                    assert(ops[i + 1] is Take);
                }
                if exists|i: int| 0 <= i < ops.len() && ops[i] is Take {
                    let i = choose|i: int| 0 <= i < ops.len() && ops[i] is Take;
                    assert(rest[i - 1] is Take);
                }
            },
            SignalOp::Take => {
                lemma_consumed_is_silent(rest);
                assert(ops[0] is Take);
            },
        }
    }
}

/// Exactly-once resolution: over any sequence of reports and collections on
/// a fresh slot, the waiter is handed at most one outcome, and that outcome
/// is the one of the earliest report. Later reports change nothing.
pub proof fn lemma_exactly_once(ops: Seq<SignalOp>)
    ensures
        spec_observed(SignalState::Pending, ops).len() <= 1,
        spec_observed(SignalState::Pending, ops).len() == 1 ==> spec_first_report(ops) == Some(
            spec_observed(SignalState::Pending, ops)[0],
        ),
    decreases ops.len(),
{
    if ops.len() > 0 {
        let rest = ops.drop_first();
        match ops[0] {
            SignalOp::Resolve(outcome) => {
                lemma_resolved_yields_its_outcome(outcome, rest);
            },
            SignalOp::Take => {
                lemma_exactly_once(rest);
            },
        }
    }
}

/// First report wins: after any non-empty sequence of reports on a fresh
/// slot, the slot holds the outcome of the first.
pub proof fn lemma_first_report_wins(outcomes: Seq<LoadOutcome>)
    requires
        outcomes.len() > 0,
    ensures
        spec_run(SignalState::Pending, outcomes.map(|i: int, o: LoadOutcome| SignalOp::Resolve(o)))
            == SignalState::Resolved(outcomes[0]),
{
    let ops = outcomes.map(|i: int, o: LoadOutcome| SignalOp::Resolve(o));
    assert(ops[0] == SignalOp::Resolve(outcomes[0]));
    lemma_reports_keep_resolved(outcomes[0], ops.drop_first());
}

/// Reports that arrive after the first leave the recorded outcome as it is.
pub proof fn lemma_reports_keep_resolved(outcome: LoadOutcome, ops: Seq<SignalOp>)
    requires
        forall|i: int| 0 <= i < ops.len() ==> ops[i] is Resolve,
    ensures
        spec_run(SignalState::Resolved(outcome), ops) == SignalState::Resolved(outcome),
    decreases ops.len(),
{
    if ops.len() > 0 {
        let rest = ops.drop_first();
        assert(ops[0] is Resolve);
        assert forall|i: int| 0 <= i < rest.len() implies rest[i] is Resolve by {
            assert(rest[i] == ops[i + 1]);
        }
        lemma_reports_keep_resolved(outcome, rest);
    }
}

} // verus!
