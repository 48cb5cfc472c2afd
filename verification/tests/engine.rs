use mc_hash_import::domain::{
    Decision, DeferReason, MainchainBlock, McBlockHash, QueryReply, RejectReason,
};
use mc_hash_import::engine::{
    pipeline_response, slot_to_timestamp, HeaderExtraction, ImportPlan, PipelineResponse,
    StepOutcome, VerificationEngine, VerificationStep,
};

const THRESHOLD_SECS: u64 = 4320;
const NOW_SECS: u64 = 1_700_000_000;

fn make_block(timestamp_millis: u64) -> MainchainBlock {
    MainchainBlock {
        number: 1,
        hash: McBlockHash([1u8; 32]),
        epoch: 1,
        slot: 1,
        timestamp_millis,
    }
}

fn engine() -> VerificationEngine {
    VerificationEngine::new(1000, THRESHOLD_SECS)
}

#[test]
fn test_stable_block_accepted_after_one_query() {
    let (decision, queries) = engine().verify_reference(
        QueryReply::Found(make_block(NOW_SECS * 1000)),
        QueryReply::NotFound,
        QueryReply::NotFound,
        NOW_SECS,
    );
    assert_eq!(decision, Decision::Accept);
    assert_eq!(queries, 1);
}

#[test]
fn test_existing_but_not_stable_defers() {
    let (decision, queries) = engine().verify_reference(
        QueryReply::NotFound,
        QueryReply::Found(make_block(NOW_SECS * 1000)),
        QueryReply::NotFound,
        NOW_SECS,
    );
    assert_eq!(decision, Decision::Defer(DeferReason::ReferenceNotStable));
    assert_eq!(queries, 2);
}

#[test]
fn test_nonexistent_with_fresh_tip_rejects() {
    // Tip produced right now: age 0 <= 4320, the local view is fresh,
    // so the absent reference is fabricated.
    let (decision, queries) = engine().verify_reference(
        QueryReply::NotFound,
        QueryReply::NotFound,
        QueryReply::Found(make_block(NOW_SECS * 1000)),
        NOW_SECS,
    );
    assert_eq!(decision, Decision::Reject(RejectReason::InvalidReference));
    assert_eq!(queries, 3);
}

#[test]
fn test_nonexistent_with_stale_tip_defers() {
    // Tip produced 5000 s ago, threshold 4320 s: the observer may lag.
    let stale_millis = (NOW_SECS - 5000) * 1000;
    let (decision, queries) = engine().verify_reference(
        QueryReply::NotFound,
        QueryReply::NotFound,
        QueryReply::Found(make_block(stale_millis)),
        NOW_SECS,
    );
    assert_eq!(decision, Decision::Defer(DeferReason::LocalViewUnhealthy));
    assert_eq!(queries, 3);
}

#[test]
fn test_stability_query_failure_defers_at_once() {
    let (decision, queries) = engine().verify_reference(
        QueryReply::Failed,
        QueryReply::Found(make_block(NOW_SECS * 1000)),
        QueryReply::Found(make_block(NOW_SECS * 1000)),
        NOW_SECS,
    );
    assert_eq!(decision, Decision::Defer(DeferReason::TransientQueryFailure));
    assert_eq!(queries, 1);
}

#[test]
fn test_existence_query_failure_defers_after_two_queries() {
    let (decision, queries) = engine().verify_reference(
        QueryReply::NotFound,
        QueryReply::Failed,
        QueryReply::Found(make_block(NOW_SECS * 1000)),
        NOW_SECS,
    );
    assert_eq!(decision, Decision::Defer(DeferReason::TransientQueryFailure));
    assert_eq!(queries, 2);
}

#[test]
fn test_no_tip_defers() {
    let (decision, _) = engine().verify_reference(
        QueryReply::NotFound,
        QueryReply::NotFound,
        QueryReply::NotFound,
        NOW_SECS,
    );
    assert_eq!(decision, Decision::Defer(DeferReason::LocalViewUnhealthy));
}

#[test]
fn test_tip_query_failure_defers() {
    let (decision, _) = engine().verify_reference(
        QueryReply::NotFound,
        QueryReply::NotFound,
        QueryReply::Failed,
        NOW_SECS,
    );
    assert_eq!(decision, Decision::Defer(DeferReason::LocalViewUnhealthy));
}

#[test]
fn test_tip_age_exactly_at_threshold_rejects() {
    // Age == threshold still counts as a fresh view: only strictly older
    // tips defer.
    let at_threshold_millis = (NOW_SECS - THRESHOLD_SECS) * 1000;
    let (decision, _) = engine().verify_reference(
        QueryReply::NotFound,
        QueryReply::NotFound,
        QueryReply::Found(make_block(at_threshold_millis)),
        NOW_SECS,
    );
    assert_eq!(decision, Decision::Reject(RejectReason::InvalidReference));

    let past_threshold_millis = (NOW_SECS - THRESHOLD_SECS - 1) * 1000;
    let (decision, _) = engine().verify_reference(
        QueryReply::NotFound,
        QueryReply::NotFound,
        QueryReply::Found(make_block(past_threshold_millis)),
        NOW_SECS,
    );
    assert_eq!(decision, Decision::Defer(DeferReason::LocalViewUnhealthy));
}

#[test]
fn test_tip_from_the_future_counts_as_age_zero() {
    // A tip timestamped past the local clock saturates to age 0.
    let future_millis = (NOW_SECS + 600) * 1000;
    let (decision, _) = engine().verify_reference(
        QueryReply::NotFound,
        QueryReply::NotFound,
        QueryReply::Found(make_block(future_millis)),
        NOW_SECS,
    );
    assert_eq!(decision, Decision::Reject(RejectReason::InvalidReference));
}

#[test]
fn test_identical_inputs_decide_identically() {
    let run = || {
        engine().verify_reference(
            QueryReply::NotFound,
            QueryReply::NotFound,
            QueryReply::Found(make_block(NOW_SECS * 1000)),
            NOW_SECS,
        )
    };
    assert_eq!(run(), run());
}

#[test]
fn test_state_only_import_bypasses_verification() {
    let extraction = HeaderExtraction::Extracted {
        mc_hash: McBlockHash([7u8; 32]),
        slot: 12,
    };
    assert_eq!(engine().plan_import(true, extraction), ImportPlan::Delegate);
    // Even an unparseable header does not matter for a state-only import.
    assert_eq!(
        engine().plan_import(true, HeaderExtraction::Malformed),
        ImportPlan::Delegate
    );
}

#[test]
fn test_malformed_header_rejects_before_any_query() {
    assert_eq!(
        engine().plan_import(false, HeaderExtraction::Malformed),
        ImportPlan::RejectMalformedHeader
    );
}

#[test]
fn test_plan_derives_reference_timestamp() {
    let mc_hash = McBlockHash([9u8; 32]);
    let plan = engine().plan_import(false, HeaderExtraction::Extracted { mc_hash, slot: 12 });
    assert_eq!(
        plan,
        ImportPlan::Verify {
            mc_hash,
            reference_timestamp_millis: 12_000,
        }
    );
}

#[test]
fn test_slot_to_timestamp_multiplies() {
    assert_eq!(slot_to_timestamp(5, 200), 1000);
    assert_eq!(slot_to_timestamp(0, 1000), 0);
}

#[test]
fn test_only_accept_reaches_the_inner_stage() {
    assert_eq!(
        pipeline_response(Decision::Accept),
        PipelineResponse::ForwardToInner
    );
    assert_eq!(
        pipeline_response(Decision::Defer(DeferReason::ReferenceNotStable)),
        PipelineResponse::MissingState
    );
    assert_eq!(
        pipeline_response(Decision::Defer(DeferReason::TransientQueryFailure)),
        PipelineResponse::MissingState
    );
    assert_eq!(
        pipeline_response(Decision::Defer(DeferReason::LocalViewUnhealthy)),
        PipelineResponse::MissingState
    );
    assert_eq!(
        pipeline_response(Decision::Reject(RejectReason::MalformedHeader)),
        PipelineResponse::Error(RejectReason::MalformedHeader)
    );
    assert_eq!(
        pipeline_response(Decision::Reject(RejectReason::InvalidReference)),
        PipelineResponse::Error(RejectReason::InvalidReference)
    );
}

#[test]
fn test_stepwise_run_matches_decision_tree() {
    let e = engine();
    let first = e.first_step();
    assert_eq!(first, VerificationStep::Stability);
    let step2 = match e.apply_reply(first, QueryReply::NotFound, NOW_SECS) {
        StepOutcome::Continue(s) => s,
        StepOutcome::Decided(d) => panic!("stability miss must continue, got {:?}", d),
    };
    assert_eq!(step2, VerificationStep::Existence);
    let step3 = match e.apply_reply(step2, QueryReply::NotFound, NOW_SECS) {
        StepOutcome::Continue(s) => s,
        StepOutcome::Decided(d) => panic!("existence miss must continue, got {:?}", d),
    };
    assert_eq!(step3, VerificationStep::TipHealth);
    let outcome = e.apply_reply(step3, QueryReply::Found(make_block(NOW_SECS * 1000)), NOW_SECS);
    assert_eq!(
        outcome,
        StepOutcome::Decided(Decision::Reject(RejectReason::InvalidReference))
    );
}
