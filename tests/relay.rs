use forcerelay::relay::{
    after_direct_submission, plan_direct_relay, BatchEvent, ChainKind, ChaseState, DirectOutcome,
    EventBatch, EventKind, Height, NextStep, PagePlan, PageRequest, RelayError, SubmitFailure,
};

fn h(n: u64) -> Height {
    Height { revision_number: 0, revision_height: n }
}

fn ev(kind: EventKind, n: u64) -> BatchEvent {
    BatchEvent { kind, height: h(n) }
}

#[test]
fn empty_batch_is_refused_before_any_submission() {
    let batch = EventBatch { events: vec![], height: h(100) };
    assert_eq!(
        plan_direct_relay(ChainKind::Eth, ChainKind::Ckb, &batch).unwrap_err(),
        RelayError::EmptyBatch
    );
}

#[test]
fn role_mismatch_is_refused() {
    let batch = EventBatch { events: vec![ev(EventKind::NewBlock, 1)], height: h(2) };
    for (src, dst) in [
        (ChainKind::Ckb, ChainKind::Ckb),
        (ChainKind::Eth, ChainKind::Eth),
        (ChainKind::Other, ChainKind::Ckb),
        (ChainKind::Ckb, ChainKind::Eth),
    ] {
        assert_eq!(plan_direct_relay(src, dst, &batch).unwrap_err(), RelayError::ConfigMismatch);
    }
    let empty = EventBatch { events: vec![], height: h(2) };
    assert_eq!(
        plan_direct_relay(ChainKind::Other, ChainKind::Other, &empty).unwrap_err(),
        RelayError::ConfigMismatch
    );
}

#[test]
fn direct_plan_keeps_new_block_heights() {
    let batch = EventBatch {
        events: vec![
            ev(EventKind::Other, 39),
            ev(EventKind::NewBlock, 40),
            ev(EventKind::Other, 40),
            ev(EventKind::NewBlock, 41),
            ev(EventKind::NewBlock, 42),
        ],
        height: h(100),
    };
    let plan = plan_direct_relay(ChainKind::Eth, ChainKind::Ckb, &batch).unwrap();
    assert_eq!(plan.heights, vec![h(40), h(41), h(42)]);
    assert_eq!(plan.start_slot, 40);
    assert_eq!(plan.end_slot, 100);
}

#[test]
fn direct_plan_without_new_blocks() {
    let batch = EventBatch { events: vec![ev(EventKind::Other, 7)], height: h(9) };
    let plan = plan_direct_relay(ChainKind::Eth, ChainKind::Ckb, &batch).unwrap();
    assert!(plan.heights.is_empty());
    assert_eq!(plan.start_slot, 0);
    assert_eq!(plan.end_slot, 9);
}

#[test]
fn direct_success_finishes() {
    assert_eq!(after_direct_submission(100, None).unwrap(), DirectOutcome::Finished);
}

#[test]
fn direct_unexpected_failure_aborts() {
    assert_eq!(
        after_direct_submission(100, Some(SubmitFailure::Other)).unwrap_err(),
        RelayError::UnexpectedSubmissionFailure
    );
}

#[test]
fn gap_starts_paging_at_tip() {
    let outcome =
        after_direct_submission(100, Some(SubmitFailure::MissingLastBlockId { height: 50 }))
            .unwrap();
    let state = match outcome {
        DirectOutcome::Chase(s) => s,
        DirectOutcome::Finished => panic!("expected a chase"),
    };
    assert_eq!(state, ChaseState { start_height: 50, target_height: 100, retry_count: 0 });
    let page = state.next_page().unwrap();
    assert_eq!(page.offset, 50);
    assert!(page.limit <= 32);
}

#[test]
fn page_limit_formula() {
    let s = ChaseState { start_height: 90, target_height: 100, retry_count: 0 };
    assert_eq!(s.next_page(), Some(PageRequest { offset: 90, limit: 11 }));
    let s = ChaseState { start_height: 0, target_height: u64::MAX, retry_count: 0 };
    assert_eq!(s.next_page(), Some(PageRequest { offset: 0, limit: 32 }));
    let s = ChaseState { start_height: 100, target_height: 100, retry_count: 0 };
    assert_eq!(s.next_page(), None);
}

#[test]
fn query_failure_is_fatal() {
    let s = ChaseState { start_height: 50, target_height: 100, retry_count: 3 };
    assert_eq!(s.after_query(None), Err(RelayError::SourceQueryFailure));
}

#[test]
fn short_page_is_still_submitted() {
    let s = ChaseState { start_height: 50, target_height: 100, retry_count: 0 };
    assert_eq!(s.after_query(Some(7)), Ok(PagePlan { count: 7, short_page: true }));
    assert_eq!(s.after_query(Some(32)), Ok(PagePlan { count: 32, short_page: false }));
    assert_eq!(s.after_query(Some(0)), Ok(PagePlan { count: 0, short_page: true }));
}

#[test]
fn successful_pages_reach_target() {
    let mut s = ChaseState { start_height: 10, target_height: 75, retry_count: 2 };
    let mut rounds = 0;
    while let Some(page) = s.next_page() {
        let fetched = page.limit.min(s.target_height - s.start_height);
        let before = s.start_height;
        assert_eq!(s.after_submission(fetched, None), Ok(NextStep::Continue));
        assert!(s.start_height > before);
        assert_eq!(s.retry_count, 0);
        rounds += 1;
    }
    assert_eq!(rounds, 3);
    assert_eq!(s.start_height, s.target_height);
}

#[test]
fn five_gap_failures_exhaust_budget() {
    let mut s = ChaseState { start_height: 50, target_height: 100, retry_count: 0 };
    let gap = Some(SubmitFailure::MissingLastBlockId { height: 50 });
    for k in 1..5 {
        assert_eq!(s.after_submission(32, gap), Ok(NextStep::BackOff));
        assert_eq!(s.retry_count, k);
        assert_eq!(s.start_height, 50);
    }
    assert_eq!(s.after_submission(32, gap), Err(RelayError::RetryBudgetExhausted));
    assert_eq!(s.start_height, 50);
}

#[test]
fn other_failures_count_without_backoff() {
    let mut s = ChaseState { start_height: 50, target_height: 100, retry_count: 0 };
    assert_eq!(s.after_submission(32, Some(SubmitFailure::Other)), Ok(NextStep::Continue));
    assert_eq!(s.retry_count, 1);
    assert_eq!(s.after_submission(32, None), Ok(NextStep::Continue));
    assert_eq!(s, ChaseState { start_height: 82, target_height: 100, retry_count: 0 });
    let mut t = ChaseState { start_height: 50, target_height: 100, retry_count: 4 };
    assert_eq!(
        t.after_submission(32, Some(SubmitFailure::Other)),
        Err(RelayError::RetryBudgetExhausted)
    );
}

#[test]
fn scenario_batch_at_one_hundred_tip_at_fifty() {
    let batch = EventBatch {
        events: vec![
            ev(EventKind::NewBlock, 40),
            ev(EventKind::NewBlock, 41),
            ev(EventKind::NewBlock, 42),
        ],
        height: h(100),
    };
    let plan = plan_direct_relay(ChainKind::Eth, ChainKind::Ckb, &batch).unwrap();
    assert_eq!(plan.start_slot, 40);
    assert_eq!(plan.end_slot, 100);
    let outcome = after_direct_submission(
        plan.end_slot,
        Some(SubmitFailure::MissingLastBlockId { height: 50 }),
    )
    .unwrap();
    let mut s = match outcome {
        DirectOutcome::Chase(s) => s,
        DirectOutcome::Finished => panic!("expected a chase"),
    };

    let page = s.next_page().unwrap();
    assert_eq!(page, PageRequest { offset: 50, limit: 32 });
    let plan = s.after_query(Some(32)).unwrap();
    assert!(!plan.short_page);
    assert_eq!(s.after_submission(plan.count, None), Ok(NextStep::Continue));
    assert_eq!(s.start_height, 82);

    // the page size is min(32, target - start + 1), so 19 are asked for here
    let page = s.next_page().unwrap();
    assert_eq!(page, PageRequest { offset: 82, limit: 19 });
    let plan = s.after_query(Some(18)).unwrap();
    assert_eq!(plan.count, 18);
    assert_eq!(s.after_submission(plan.count, None), Ok(NextStep::Continue));
    assert_eq!(s.start_height, 100);
    assert_eq!(s.retry_count, 0);
    assert_eq!(s.next_page(), None);
}

#[test]
fn mixed_failures_exhaust_budget_and_success_resets() {
    let mut s = ChaseState { start_height: 20, target_height: 30, retry_count: 0 };
    let gap = Some(SubmitFailure::MissingLastBlockId { height: 20 });
    assert_eq!(s.after_submission(11, gap), Ok(NextStep::BackOff));
    assert_eq!(s.after_submission(11, Some(SubmitFailure::Other)), Ok(NextStep::Continue));
    assert_eq!(s.after_submission(5, None), Ok(NextStep::Continue));
    assert_eq!(s, ChaseState { start_height: 25, target_height: 30, retry_count: 0 });
    let shapes = [gap, Some(SubmitFailure::Other), gap, Some(SubmitFailure::Other)];
    for f in shapes {
        assert!(s.after_submission(6, f).is_ok());
    }
    assert_eq!(s.retry_count, 4);
    assert_eq!(s.after_submission(6, gap), Err(RelayError::RetryBudgetExhausted));
    assert_eq!(s.start_height, 25);
}
