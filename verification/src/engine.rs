//! The verification decision engine: a pure, stepwise state machine over
//! the answers of the mainchain observer.

use vstd::prelude::*;
use crate::domain::{Decision, DeferReason, MainchainBlock, McBlockHash, QueryReply, RejectReason};

verus! {

/// What the pipeline's header parsing yielded for a proposed block.
#[derive(Clone, Copy, Debug, PartialEq, Eq)]
pub enum HeaderExtraction {
    /// The digest held a mainchain hash and the header a production slot.
    Extracted { mc_hash: McBlockHash, slot: u64 },
    /// The header could not yield one of the two.
    Malformed,
}

/// How one import call proceeds, settled before any observer query runs.
#[derive(Clone, Copy, Debug, PartialEq, Eq)]
pub enum ImportPlan {
    /// Hand the block to the inner import stage unverified: a state-only
    /// import carries nothing for this engine to check.
    Delegate,
    /// Reject at once: a header that cannot be parsed is a structural
    /// defect, not a retryable condition. No query is issued.
    RejectMalformedHeader,
    /// Run the decision tree for this reference, as of this timestamp.
    Verify { mc_hash: McBlockHash, reference_timestamp_millis: u64 },
}

/// Timestamp of the observer's tip, in whole seconds.
pub open spec fn tip_timestamp_secs(tip: MainchainBlock) -> int {
    (tip.timestamp_millis / 1000) as int
}

/// Age of the observer's tip at `now_secs`, saturating at zero.
pub open spec fn tip_age_secs(now_secs: u64, tip: MainchainBlock) -> int {
    if now_secs >= tip_timestamp_secs(tip) {
        now_secs - tip_timestamp_secs(tip)
    } else {
        0
    }
}

/// Verdict once the reference is known to be absent: reject against a fresh
/// local view, defer against a stale one.
pub open spec fn tip_health_decision(tip: MainchainBlock, now_secs: u64, threshold_secs: u64) -> Decision {
    if tip_age_secs(now_secs, tip) > threshold_secs {
        Decision::Defer(DeferReason::LocalViewUnhealthy)
    } else {
        Decision::Reject(RejectReason::InvalidReference)
    }
}

/// The three observer queries of the decision tree, in the order in which
/// they may run. Each step is conclusive or hands over to the next: the
/// engine never issues a query past the first conclusive answer.
#[derive(Clone, Copy, Debug, PartialEq, Eq)]
pub enum VerificationStep {
    /// Ask `get_stable_block` whether the reference is already stable.
    Stability,
    /// Ask `get_block_by_hash` whether the reference exists at all.
    Existence,
    /// Ask `get_tip` how fresh the observer's own view is.
    TipHealth,
}

/// What one answered query leaves the engine with.
#[derive(Clone, Copy, Debug, PartialEq, Eq)]
pub enum StepOutcome {
    /// The answer was inconclusive: issue the query of the named step next.
    Continue(VerificationStep),
    /// The answer was conclusive: the call's one decision.
    Decided(Decision),
}

/// Transition table of the engine: what the reply of `step`'s query decides,
/// or which step runs next.
pub open spec fn step_spec(
    step: VerificationStep,
    reply: QueryReply,
    now_secs: u64,
    threshold_secs: u64,
) -> StepOutcome {
    match step {
        VerificationStep::Stability => match reply {
            QueryReply::Found(_) => StepOutcome::Decided(Decision::Accept),
            QueryReply::NotFound => StepOutcome::Continue(VerificationStep::Existence),
            QueryReply::Failed => StepOutcome::Decided(
                Decision::Defer(DeferReason::TransientQueryFailure),
            ),
        },
        VerificationStep::Existence => match reply {
            QueryReply::Found(_) => StepOutcome::Decided(
                Decision::Defer(DeferReason::ReferenceNotStable),
            ),
            QueryReply::NotFound => StepOutcome::Continue(VerificationStep::TipHealth),
            QueryReply::Failed => StepOutcome::Decided(
                Decision::Defer(DeferReason::TransientQueryFailure),
            ),
        },
        VerificationStep::TipHealth => match reply {
            QueryReply::Found(tip) => StepOutcome::Decided(
                tip_health_decision(tip, now_secs, threshold_secs),
            ),
            QueryReply::NotFound => StepOutcome::Decided(
                Decision::Defer(DeferReason::LocalViewUnhealthy),
            ),
            QueryReply::Failed => StepOutcome::Decided(
                Decision::Defer(DeferReason::LocalViewUnhealthy),
            ),
        },
    }
}

/// The decision reached when the three queries would answer `stability`,
/// `existence` and `tip`: the engine is a pure function of the replies it
/// consumes, the clock, and the threshold.
pub open spec fn decision_spec(
    stability: QueryReply,
    existence: QueryReply,
    tip: QueryReply,
    now_secs: u64,
    threshold_secs: u64,
) -> Decision {
    match stability {
        QueryReply::Found(_) => Decision::Accept,
        QueryReply::Failed => Decision::Defer(DeferReason::TransientQueryFailure),
        QueryReply::NotFound => match existence {
            QueryReply::Found(_) => Decision::Defer(DeferReason::ReferenceNotStable),
            QueryReply::Failed => Decision::Defer(DeferReason::TransientQueryFailure),
            QueryReply::NotFound => match tip {
                QueryReply::Found(t) => tip_health_decision(t, now_secs, threshold_secs),
                QueryReply::NotFound => Decision::Defer(DeferReason::LocalViewUnhealthy),
                QueryReply::Failed => Decision::Defer(DeferReason::LocalViewUnhealthy),
            },
        },
    }
}

/// How many queries a run consumes before it decides: the engine
/// short-circuits, so only the first two replies determine the count.
pub open spec fn queries_issued_spec(stability: QueryReply, existence: QueryReply) -> int {
    match stability {
        QueryReply::Found(_) => 1,
        QueryReply::Failed => 1,
        QueryReply::NotFound => match existence {
            QueryReply::Found(_) => 2,
            QueryReply::Failed => 2,
            QueryReply::NotFound => 3,
        },
    }
}

/// Reference timestamp of a block produced in `slot`: the slot index times
/// the slot duration, in milliseconds.
pub open spec fn slot_to_timestamp_spec(slot: u64, slot_duration_millis: u64) -> int {
    slot * slot_duration_millis
}

/// Derives a block's reference timestamp from its production slot.
pub fn slot_to_timestamp(slot: u64, slot_duration_millis: u64) -> (r: u64)
    requires
        slot * slot_duration_millis <= u64::MAX,
    ensures
        r == slot_to_timestamp_spec(slot, slot_duration_millis),
{
    slot * slot_duration_millis
}

/// The plan an import call follows: the state-only bypass outranks header
/// parsing, and a malformed header outranks every query.
pub open spec fn plan_spec(
    engine: VerificationEngine,
    state_only: bool,
    extraction: HeaderExtraction,
) -> ImportPlan {
    if state_only {
        ImportPlan::Delegate
    } else {
        match extraction {
            HeaderExtraction::Malformed => ImportPlan::RejectMalformedHeader,
            HeaderExtraction::Extracted { mc_hash, slot } => ImportPlan::Verify {
                mc_hash,
                reference_timestamp_millis: slot_to_timestamp_spec(
                    slot,
                    engine.slot_duration_millis,
                ) as u64,
            },
        }
    }
}

/// The verification decision engine. Its configuration is fixed at
/// construction; each import call runs the same pure decision tree over it.
#[derive(Clone, Copy, Debug, PartialEq, Eq)]
pub struct VerificationEngine {
    /// Duration of one local-chain slot, in milliseconds; turns a block's
    /// production slot into its reference timestamp.
    pub slot_duration_millis: u64,
    /// Maximum age, in seconds, at which the observer's tip still counts as
    /// a trustworthy view of the mainchain.
    pub tip_staleness_threshold_secs: u64,
}

impl VerificationEngine {
    pub fn new(slot_duration_millis: u64, tip_staleness_threshold_secs: u64) -> (r: Self)
        ensures
            r.slot_duration_millis == slot_duration_millis,
            r.tip_staleness_threshold_secs == tip_staleness_threshold_secs,
    {
        VerificationEngine { slot_duration_millis, tip_staleness_threshold_secs }
    }

    /// Settles how an import call proceeds before any query runs: the
    /// state-only bypass first, then the malformed-header short circuit,
    /// and only then a verification of the extracted reference.
    pub fn plan_import(
        &self,
        state_only: bool,
        extraction: HeaderExtraction,
    ) -> (r: ImportPlan)
        requires
            !state_only ==> (extraction matches HeaderExtraction::Extracted { slot, .. }
                ==> slot * self.slot_duration_millis <= u64::MAX),
        ensures
            r == plan_spec(*self, state_only, extraction),
    {
        if state_only {
            return ImportPlan::Delegate;
        }
        match extraction {
            HeaderExtraction::Malformed => ImportPlan::RejectMalformedHeader,
            HeaderExtraction::Extracted { mc_hash, slot } => ImportPlan::Verify {
                mc_hash,
                reference_timestamp_millis: slot_to_timestamp(slot, self.slot_duration_millis),
            },
        }
    }

    /// The step whose query every verification run issues first.
    pub fn first_step(&self) -> (r: VerificationStep)
        ensures
            r == VerificationStep::Stability,
    {
        VerificationStep::Stability
    }

    /// Feeds one query reply to the engine: either the call's decision, or
    /// the step whose query must be issued next.
    pub fn apply_reply(
        &self,
        step: VerificationStep,
        reply: QueryReply,
        now_secs: u64,
    ) -> (r: StepOutcome)
        ensures
            r == step_spec(step, reply, now_secs, self.tip_staleness_threshold_secs),
    {
        match step {
            VerificationStep::Stability => match reply {
                QueryReply::Found(_) => StepOutcome::Decided(Decision::Accept),
                QueryReply::NotFound => StepOutcome::Continue(VerificationStep::Existence),
                QueryReply::Failed => StepOutcome::Decided(
                    Decision::Defer(DeferReason::TransientQueryFailure),
                ),
            },
            VerificationStep::Existence => match reply {
                QueryReply::Found(_) => StepOutcome::Decided(
                    Decision::Defer(DeferReason::ReferenceNotStable),
                ),
                QueryReply::NotFound => StepOutcome::Continue(VerificationStep::TipHealth),
                QueryReply::Failed => StepOutcome::Decided(
                    Decision::Defer(DeferReason::TransientQueryFailure),
                ),
            },
            VerificationStep::TipHealth => match reply {
                QueryReply::Found(tip) => {
                    let tip_secs: u64 = tip.timestamp_millis / 1000;
                    let age_secs: u64 = if now_secs >= tip_secs {
                        now_secs - tip_secs
                    } else {
                        0
                    };
                    if age_secs > self.tip_staleness_threshold_secs {
                        StepOutcome::Decided(Decision::Defer(DeferReason::LocalViewUnhealthy))
                    } else {
                        StepOutcome::Decided(Decision::Reject(RejectReason::InvalidReference))
                    }
                },
                QueryReply::NotFound => StepOutcome::Decided(
                    Decision::Defer(DeferReason::LocalViewUnhealthy),
                ),
                QueryReply::Failed => StepOutcome::Decided(
                    Decision::Defer(DeferReason::LocalViewUnhealthy),
                ),
            },
        }
    }

    /// Runs the whole decision tree against the replies the three queries
    /// would give, by stepping `apply_reply` from the first step. Returns
    /// the decision and how many of the replies were consumed: replies past
    /// the first conclusive one are never looked at.
    pub fn verify_reference(
        &self,
        stability: QueryReply,
        existence: QueryReply,
        tip: QueryReply,
        now_secs: u64,
    ) -> (r: (Decision, u64))
        ensures
            r.0 == decision_spec(
                stability,
                existence,
                tip,
                now_secs,
                self.tip_staleness_threshold_secs,
            ),
            r.1 == queries_issued_spec(stability, existence),
    {
        let step1 = self.first_step();
        let step2 = match self.apply_reply(step1, stability, now_secs) {
            StepOutcome::Decided(d) => {
                return (d, 1);
            },
            StepOutcome::Continue(s) => s,
        };
        let step3 = match self.apply_reply(step2, existence, now_secs) {
            StepOutcome::Decided(d) => {
                return (d, 2);
            },
            StepOutcome::Continue(s) => s,
        };
        match self.apply_reply(step3, tip, now_secs) {
            StepOutcome::Decided(d) => (d, 3),
            // The tip-health step is conclusive on every reply.
            StepOutcome::Continue(_) => unreached(),
        }
    }
}

/// What the wrapper hands the surrounding pipeline for a decision.
#[derive(Clone, Copy, Debug, PartialEq, Eq)]
pub enum PipelineResponse {
    /// Forward the unmodified block to the inner import stage and return
    /// its result.
    ForwardToInner,
    /// Report missing state: the pipeline retries the block later, and no
    /// one is penalized.
    MissingState,
    /// Surface an import error carrying the reject reason: upstream peer
    /// scoring responds to it.
    Error(RejectReason),
}

/// How each decision is surfaced: acceptance delegates, deferral reports
/// missing state, rejection errors with its reason.
pub open spec fn response_spec(decision: Decision) -> PipelineResponse {
    match decision {
        Decision::Accept => PipelineResponse::ForwardToInner,
        Decision::Defer(_) => PipelineResponse::MissingState,
        Decision::Reject(reason) => PipelineResponse::Error(reason),
    }
}

/// Translates the call's decision into the pipeline's vocabulary.
pub fn pipeline_response(decision: Decision) -> (r: PipelineResponse)
    ensures
        r == response_spec(decision),
{
    match decision {
        Decision::Accept => PipelineResponse::ForwardToInner,
        Decision::Defer(_) => PipelineResponse::MissingState,
        Decision::Reject(reason) => PipelineResponse::Error(reason),
    }
}

/// The inner import stage sees a block exactly when the decision was
/// Accept; a deferred block comes back as missing state, never as an
/// error, and a rejected block always errors.
pub proof fn lemma_inner_import_only_on_accept(decision: Decision)
    ensures
        (response_spec(decision) == PipelineResponse::ForwardToInner) <==> decision
            == Decision::Accept,
        (response_spec(decision) == PipelineResponse::MissingState) <==> decision is Defer,
        (response_spec(decision) is Error) <==> decision is Reject,
{
}

/// A stable reference is accepted, on the first query alone: whenever the
/// stability query finds a block, the decision is Accept, and it is the
/// only decision under which the block goes on to the inner import stage.
pub proof fn lemma_stable_reference_accepted(
    stability: QueryReply,
    existence: QueryReply,
    tip: QueryReply,
    now_secs: u64,
    threshold_secs: u64,
)
    requires
        stability is Found,
    ensures
        decision_spec(stability, existence, tip, now_secs, threshold_secs) == Decision::Accept,
        queries_issued_spec(stability, existence) == 1,
{
}

/// A reference that exists but is not yet stable is deferred, without
/// penalty, and the tip is never consulted.
pub proof fn lemma_existing_unstable_deferred(
    stability: QueryReply,
    existence: QueryReply,
    tip: QueryReply,
    now_secs: u64,
    threshold_secs: u64,
)
    requires
        stability is NotFound,
        existence is Found,
    ensures
        decision_spec(stability, existence, tip, now_secs, threshold_secs)
            == Decision::Defer(DeferReason::ReferenceNotStable),
        queries_issued_spec(stability, existence) == 2,
{
}

/// A reference absent from a fresh local view is rejected: both lookups
/// found nothing and the tip's age is within the threshold.
pub proof fn lemma_absent_fresh_tip_rejected(
    stability: QueryReply,
    existence: QueryReply,
    tip_block: MainchainBlock,
    now_secs: u64,
    threshold_secs: u64,
)
    requires
        stability is NotFound,
        existence is NotFound,
        tip_age_secs(now_secs, tip_block) <= threshold_secs,
    ensures
        decision_spec(stability, existence, QueryReply::Found(tip_block), now_secs, threshold_secs)
            == Decision::Reject(RejectReason::InvalidReference),
{
}

/// A reference absent from a stale local view is deferred: the observer may
/// simply be lagging, so no one is penalized.
pub proof fn lemma_absent_stale_tip_deferred(
    stability: QueryReply,
    existence: QueryReply,
    tip_block: MainchainBlock,
    now_secs: u64,
    threshold_secs: u64,
)
    requires
        stability is NotFound,
        existence is NotFound,
        tip_age_secs(now_secs, tip_block) > threshold_secs,
    ensures
        decision_spec(stability, existence, QueryReply::Found(tip_block), now_secs, threshold_secs)
            == Decision::Defer(DeferReason::LocalViewUnhealthy),
{
}

/// When the first two lookups found nothing and no tip can be had — the
/// query failed or the observer knows no tip — the decision is to defer,
/// whatever the clock or the threshold say.
pub proof fn lemma_no_tip_deferred(
    stability: QueryReply,
    existence: QueryReply,
    tip: QueryReply,
    now_secs: u64,
    threshold_secs: u64,
)
    requires
        stability is NotFound,
        existence is NotFound,
        !(tip is Found),
    ensures
        decision_spec(stability, existence, tip, now_secs, threshold_secs)
            == Decision::Defer(DeferReason::LocalViewUnhealthy),
{
}

/// A failed query at the stability or existence step defers at once: the
/// run consumes no reply past the failing one.
pub proof fn lemma_query_failure_defers(
    stability: QueryReply,
    existence: QueryReply,
    tip: QueryReply,
    now_secs: u64,
    threshold_secs: u64,
)
    requires
        stability is Failed || (stability is NotFound && existence is Failed),
    ensures
        decision_spec(stability, existence, tip, now_secs, threshold_secs)
            == Decision::Defer(DeferReason::TransientQueryFailure),
        stability is Failed ==> queries_issued_spec(stability, existence) == 1,
        stability is NotFound ==> queries_issued_spec(stability, existence) == 2,
{
}

/// A state-only import bypasses verification outright: the plan is to
/// delegate, whatever the header extraction yielded, and no query runs.
pub proof fn lemma_state_only_bypasses(engine: VerificationEngine, extraction: HeaderExtraction)
    ensures
        plan_spec(engine, true, extraction) == ImportPlan::Delegate,
{
}

/// The engine is deterministic: two runs over equal replies, the same
/// clock and the same threshold decide alike and consume equally many
/// replies — the decision depends on nothing else.
pub proof fn lemma_deterministic(
    stability1: QueryReply,
    existence1: QueryReply,
    tip1: QueryReply,
    stability2: QueryReply,
    existence2: QueryReply,
    tip2: QueryReply,
    now_secs: u64,
    threshold_secs: u64,
)
    requires
        stability1 == stability2,
        existence1 == existence2,
        tip1 == tip2,
    ensures
        decision_spec(stability1, existence1, tip1, now_secs, threshold_secs)
            == decision_spec(stability2, existence2, tip2, now_secs, threshold_secs),
        queries_issued_spec(stability1, existence1) == queries_issued_spec(stability2, existence2),
{
}

} // verus!
