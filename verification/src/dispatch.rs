//! The dispatcher: drives a launch strategy chain strictly in order,
//! stopping at the first success and aggregating every failure.
//!
//! Handing an address to the operating system is outside work, so the
//! dispatcher is a state machine: the caller asks for the next strategy,
//! performs it, and reports the outcome; the machine decides whether to
//! stop or fall through to the next tier.  [`dispatch_scripted`] runs
//! the whole loop against a pre-recorded script of outcomes.

use vstd::prelude::*;

use crate::chain::{chain_for, chain_spec, chain_view, LaunchStrategy, StrategyView};
use crate::intent::{intent_well_formed, Intent};
use crate::platform::Platform;

verus! {

/// The result of attempting one launch strategy.
#[derive(Clone, Debug)]
pub enum LaunchOutcome {
    Success,
    Failed { message: String },
}

/// The mathematical shape of an outcome.
pub enum OutcomeView {
    Success,
    Failed { message: Seq<char> },
}

impl View for LaunchOutcome {
    type V = OutcomeView;

    open spec fn view(&self) -> OutcomeView {
        match self {
            LaunchOutcome::Success => OutcomeView::Success,
            LaunchOutcome::Failed { message } => OutcomeView::Failed { message: message@ },
        }
    }
}

impl LaunchOutcome {
    /// A copy of the outcome with the same view.
    pub fn duplicate(&self) -> (r: LaunchOutcome)
        ensures
            r@ == self@,
    {
        match self {
            LaunchOutcome::Success => LaunchOutcome::Success,
            LaunchOutcome::Failed { message } => LaunchOutcome::Failed {
                message: message.clone(),
            },
        }
    }
}

/// The views of a sequence of outcomes.
pub open spec fn outcome_views(s: Seq<LaunchOutcome>) -> Seq<OutcomeView> {
    s.map_values(|o: LaunchOutcome| o@)
}

/// The failure message an outcome carries; empty for a success.
pub open spec fn message_of(o: OutcomeView) -> Seq<char> {
    match o {
        OutcomeView::Failed { message } => message,
        OutcomeView::Success => Seq::empty(),
    }
}

/// Whether some attempted tier succeeded.
pub open spec fn has_success(os: Seq<OutcomeView>) -> bool {
    exists|i: int| 0 <= i < os.len() && os[i] is Success
}

/// The index of the first successful outcome; the length when none is
/// successful.
pub open spec fn first_success(os: Seq<OutcomeView>) -> int
    decreases os.len(),
{
    if os.len() == 0 {
        0
    } else if os[0] is Success {
        0
    } else {
        1 + first_success(os.drop_first())
    }
}

/// How many tiers a dispatch over these would-be outcomes attempts:
/// everything up to and including the first success, or the whole chain
/// when every tier fails.
pub open spec fn attempts_spec(os: Seq<OutcomeView>) -> int {
    if has_success(os) {
        first_success(os) + 1
    } else {
        os.len() as int
    }
}

/// How a tier's delivery path failed: the OS open-equivalent rejected
/// or could not resolve the target, or creating the spawned process
/// itself failed.  Both are recoverable by falling through to the next
/// tier; they become terminal only when the chain is exhausted.
#[derive(Clone, Copy, PartialEq, Eq, Structural, Debug)]
pub enum FailureKind {
    HandoffFailed,
    SpawnFailed,
}

/// The failure kind a strategy produces when its attempt fails: the two
/// open-equivalent primitives fail as handoffs, a direct spawn fails as
/// a spawn.
pub open spec fn failure_kind_of(s: StrategyView) -> FailureKind {
    match s {
        StrategyView::SpawnProgram { program, args } => FailureKind::SpawnFailed,
        _ => FailureKind::HandoffFailed,
    }
}

/// The failure of one tier, tagged with the 1-based tier that produced
/// it and with how that tier's delivery path failed.
#[derive(Clone, Debug)]
pub struct TierFailure {
    pub tier: usize,
    pub kind: FailureKind,
    pub message: String,
}

/// Every tier's failure, in attempt order, surfaced when a chain is
/// exhausted without a success.
#[derive(Clone, Debug)]
pub struct AggregatedError {
    pub failures: Vec<TierFailure>,
}

/// The recorded failures match the failed prefix of the outcomes: one
/// entry per outcome, tagged 1-based in attempt order, carrying that
/// outcome's message and the failure kind of the strategy that was
/// being attempted.
pub open spec fn failures_match(
    failures: Seq<TierFailure>,
    os: Seq<OutcomeView>,
    chain: Seq<StrategyView>,
) -> bool {
    &&& failures.len() == os.len()
    &&& forall|i: int|
        0 <= i < failures.len() ==> (#[trigger] failures[i]).tier == i + 1 && failures[i].message@
            == message_of(os[i]) && failures[i].kind == failure_kind_of(chain[i])
}

/// The dispatcher's per-call state: the chain for one intent, how far it
/// has advanced, and every failure seen so far.  Discarded after the
/// call; nothing persists across calls.
pub struct DispatchSession {
    strategies: Vec<LaunchStrategy>,
    cursor: usize,
    succeeded: bool,
    failures: Vec<TierFailure>,
    outcomes: Ghost<Seq<OutcomeView>>,
}

impl DispatchSession {
    /// The chain this session walks.
    pub closed spec fn strategy_views(self) -> Seq<StrategyView> {
        chain_view(self.strategies@)
    }

    /// The outcomes recorded so far, in attempt order.
    pub closed spec fn recorded(self) -> Seq<OutcomeView> {
        self.outcomes@
    }

    /// How many strategies have been attempted.
    pub closed spec fn attempted(self) -> int {
        self.outcomes@.len() as int
    }

    /// Whether the last recorded outcome was a success.
    pub closed spec fn succeeded(self) -> bool {
        self.succeeded
    }

    /// The session is over: a tier succeeded, or the chain is exhausted.
    pub closed spec fn finished(self) -> bool {
        self.succeeded || self.attempted() == self.strategy_views().len()
    }

    /// Internal consistency: the cursor counts the recorded outcomes,
    /// never past the chain; every outcome before the last one failed;
    /// the success flag mirrors the last outcome; the failures list the
    /// failed outcomes in order, tier-tagged.
    pub closed spec fn wf(self) -> bool {
        &&& self.cursor == self.outcomes@.len()
        &&& self.outcomes@.len() <= self.strategies@.len()
        &&& (self.succeeded <==> self.outcomes@.len() > 0 && self.outcomes@.last()
            is Success)
        &&& forall|i: int| 0 <= i < self.outcomes@.len() - 1 ==> self.outcomes@[i] is Failed
        &&& failures_match(
            self.failures@,
            if self.succeeded {
                self.outcomes@.drop_last()
            } else {
                self.outcomes@
            },
            self.strategy_views(),
        )
    }

    /// Opens a dispatch call: resolves the chain for the intent on the
    /// platform; nothing is attempted yet.
    pub fn new(intent: &Intent, platform: Platform) -> (s: DispatchSession)
        requires
            intent_well_formed(intent@),
        ensures
            s.wf(),
            s.strategy_views() == chain_spec(intent@, platform),
            s.recorded() == Seq::<OutcomeView>::empty(),
            !s.finished(),
    {
        let strategies = chain_for(intent, platform);
        DispatchSession {
            strategies,
            cursor: 0,
            succeeded: false,
            failures: Vec::new(),
            outcomes: Ghost(Seq::empty()),
        }
    }

    /// Whether the session is over.
    pub fn is_finished(&self) -> (r: bool)
        requires
            self.wf(),
        ensures
            r == self.finished(),
    {
        self.succeeded || self.cursor >= self.strategies.len()
    }

    /// The strategy to attempt next: the first not yet attempted, in
    /// chain order; `None` once the session is finished.
    pub fn next_strategy(&self) -> (r: Option<&LaunchStrategy>)
        requires
            self.wf(),
        ensures
            match r {
                Some(s) => !self.finished() && s@ == self.strategy_views()[self.attempted()],
                None => self.finished(),
            },
    {
        if self.succeeded || self.cursor >= self.strategies.len() {
            None
        } else {
            Some(&self.strategies[self.cursor])
        }
    }

    /// Records the outcome of the strategy just attempted: a success
    /// finishes the call; a failure is kept, tagged with its tier, and
    /// the session advances to the next tier.
    pub fn record_outcome(&mut self, outcome: LaunchOutcome)
        requires
            old(self).wf(),
            !old(self).finished(),
        ensures
            final(self).wf(),
            final(self).recorded() == old(self).recorded().push(outcome@),
            final(self).strategy_views() == old(self).strategy_views(),
            final(self).succeeded() == (outcome@ is Success),
    {
        let n = self.strategies.len();
        proof {
            assert(old(self).strategy_views().len() == old(self).strategies@.len());
            assert(self.cursor < n);
            self.outcomes@ = self.outcomes@.push(outcome@);
        }
        match outcome {
            LaunchOutcome::Success => {
                self.succeeded = true;
                self.cursor = self.cursor + 1;
                proof {
                    assert(self.outcomes@.drop_last() =~= old(self).outcomes@);
                }
            },
            LaunchOutcome::Failed { message } => {
                let tier = self.cursor + 1;
                let kind = match &self.strategies[self.cursor] {
                    LaunchStrategy::SpawnProgram { .. } => FailureKind::SpawnFailed,
                    _ => FailureKind::HandoffFailed,
                };
                proof {
                    assert(kind == failure_kind_of(
                        old(self).strategy_views()[self.cursor as int],
                    ));
                }
                self.failures.push(TierFailure { tier, kind, message });
                self.cursor = self.cursor + 1;
            },
        }
    }

    /// Closes a finished call: success if some tier succeeded, otherwise
    /// the aggregated error carrying one tagged reason per tier, in
    /// attempt order.
    pub fn finish(self) -> (r: Result<(), AggregatedError>)
        requires
            self.wf(),
            self.finished(),
        ensures
            r is Ok <==> self.succeeded(),
            match r {
                Ok(u) => true,
                Err(e) => failures_match(e.failures@, self.recorded(), self.strategy_views()),
            },
    {
        if self.succeeded {
            Ok(())
        } else {
            Err(AggregatedError { failures: self.failures })
        }
    }
}

/// The first success comes where the first success lies: if everything
/// before `k` failed and `k` succeeded, exactly `k + 1` tiers are
/// attempted — later tiers are never reached.
pub proof fn lemma_first_success_at(os: Seq<OutcomeView>, k: int)
    requires
        0 <= k < os.len(),
        os[k] is Success,
        forall|j: int| 0 <= j < k ==> os[j] is Failed,
    ensures
        has_success(os),
        first_success(os) == k,
        attempts_spec(os) == k + 1,
    decreases k,
{
    if k == 0 {
    } else {
        lemma_first_success_at(os.drop_first(), k - 1);
    }
}

/// Runs a whole dispatch call against a script of would-be outcomes,
/// one per tier of the chain: tiers are attempted strictly in chain
/// order, the walk stops at the first success, and an exhausted chain
/// yields the aggregated error with one tagged reason per tier in
/// attempt order.  Returns how many tiers were attempted, and the
/// call's result.
pub fn dispatch_scripted(intent: &Intent, platform: Platform, outcomes: &Vec<LaunchOutcome>) -> (r:
    (usize, Result<(), AggregatedError>))
    requires
        intent_well_formed(intent@),
        outcomes@.len() == chain_spec(intent@, platform).len(),
    ensures
        r.0 == attempts_spec(outcome_views(outcomes@)),
        r.1 is Ok <==> has_success(outcome_views(outcomes@)),
        match r.1 {
            Ok(u) => true,
            Err(e) => failures_match(
                e.failures@,
                outcome_views(outcomes@),
                chain_spec(intent@, platform),
            ),
        },
{
    let ghost script = outcome_views(outcomes@);
    let mut session = DispatchSession::new(intent, platform);
    let mut i: usize = 0;
    while !session.is_finished()
        invariant
            session.wf(),
            session.strategy_views() == chain_spec(intent@, platform),
            i == session.attempted(),
            i <= script.len(),
            outcomes@.len() == script.len(),
            session.strategy_views().len() == script.len(),
            script == outcome_views(outcomes@),
            session.recorded() == script.subrange(0, i as int),
        decreases script.len() - i,
    {
        proof {
            assert(session.strategy_views().len() == script.len());
            assert(i < script.len());
            assert(script[i as int] == outcomes@[i as int]@);
        }
        let outcome = outcomes[i].duplicate();
        session.record_outcome(outcome);
        proof {
            assert(session.recorded() =~= script.subrange(0, i + 1));
        }
        i += 1;
    }
    let ghost run = session.recorded();
    proof {
        assert(run == script.subrange(0, i as int));
        assert(forall|j: int| 0 <= j < i ==> run[j] == script[j]);
        if session.succeeded() {
            assert(run.last() is Success);
            assert(script[i - 1] is Success);
            assert(forall|j: int| 0 <= j < i - 1 ==> script[j] is Failed);
            lemma_first_success_at(script, i - 1);
        } else {
            assert(i == script.len());
            assert forall|j: int| 0 <= j < script.len() implies script[j] is Failed by {
                if j < i - 1 {
                    assert(run[j] is Failed);
                } else {
                    assert(run.len() > 0);
                    assert(script[j] == run.last());
                    assert(!(run.last() is Success));
                }
            }
            assert(!has_success(script));
            assert(session.recorded() =~= script);
        }
    }
    let result = session.finish();
    (i, result)
}

} // verus!
