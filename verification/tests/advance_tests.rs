use listen_engine::{
    complete_step, fail_step, frontier_plans, Action, Condition, ConditionType, Engine,
    Notification, Pipeline, PipelineStep, PriceBook, Status, StepDecision, SwapOrder,
};

fn cond(condition_type: ConditionType) -> Condition {
    Condition { condition_type, triggered: false, last_evaluated: None }
}

fn swap_sol_usdc() -> SwapOrder {
    SwapOrder {
        input_token: "SOL".to_string(),
        output_token: "USDC".to_string(),
        amount: "1000".to_string(),
        from_chain_caip2: "solana:5eykt4UsFv8P8NJdTREpY1vzqKqZKvdp".to_string(),
        to_chain_caip2: "solana:5eykt4UsFv8P8NJdTREpY1vzqKqZKvdp".to_string(),
    }
}

fn swap_pipeline() -> Pipeline {
    Pipeline {
        id: "pipe1".to_string(),
        user_id: "alice".to_string(),
        wallet_address: "0xwallet".to_string(),
        pubkey: "pubkey".to_string(),
        current_steps: vec![1],
        steps: vec![PipelineStep {
            id: 1,
            action: Action::Order(swap_sol_usdc()),
            conditions: vec![cond(ConditionType::PriceAbove {
                asset: "SOL".to_string(),
                value: 100,
            })],
            next_steps: vec![],
            status: Status::Pending,
            transaction_hash: None,
            error: None,
        }],
        status: Status::Pending,
        created_at: 0,
    }
}

#[test]
fn tick_below_threshold_invokes_nothing_and_stays_pending() {
    // Scenario: single step guarded by PriceAbove{SOL,100}; a tick of 90
    // leaves the step unready, nothing executes, the pipeline stays Pending.
    let p = swap_pipeline();
    let mut prices = PriceBook::new();
    prices.set("SOL", 90);
    let plans = frontier_plans(&p, &prices, 0);
    assert_eq!(plans.len(), 1);
    assert_eq!(plans[0].step_id, 1);
    assert!(matches!(plans[0].decision, StepDecision::NotReady));
    assert_eq!(p.status, Status::Pending);
    assert!(!p.is_terminal());
}

#[test]
fn tick_above_threshold_executes_once_and_completes_the_pipeline() {
    // Scenario continued: a tick of 101 makes the step ready exactly once; on
    // submission success the step completes, the frontier empties, and the
    // pipeline becomes Completed.
    let mut p = swap_pipeline();
    let mut prices = PriceBook::new();
    prices.set("SOL", 101);
    let plans = frontier_plans(&p, &prices, 0);
    assert_eq!(plans.len(), 1);
    let ready = plans
        .iter()
        .filter(|plan| matches!(plan.decision, StepDecision::Ready(_)))
        .count();
    assert_eq!(ready, 1);
    match &plans[0].decision {
        StepDecision::Ready(Action::Order(order)) => {
            assert_eq!(order.input_token, "SOL");
            assert_eq!(order.output_token, "USDC");
        },
        other => panic!("expected a ready swap, got {:?}", other),
    }
    complete_step(&mut p, 1, Some("0xhash".to_string()));
    assert_eq!(p.steps[0].status, Status::Completed);
    assert_eq!(p.steps[0].transaction_hash, Some("0xhash".to_string()));
    assert!(p.current_steps.is_empty());
    assert_eq!(p.status, Status::Completed);
    assert!(p.is_terminal());
}

#[test]
fn completing_a_step_activates_its_successors() {
    let mut p = swap_pipeline();
    p.steps[0].next_steps = vec![2];
    p.steps.push(PipelineStep {
        id: 2,
        action: Action::Notification(Notification { message: "done".to_string() }),
        conditions: vec![],
        next_steps: vec![],
        status: Status::Pending,
        transaction_hash: None,
        error: None,
    });
    complete_step(&mut p, 1, None);
    assert_eq!(p.current_steps, vec![2]);
    assert_eq!(p.status, Status::Pending);
    assert!(!p.is_terminal());
    let prices = PriceBook::new();
    let plans = frontier_plans(&p, &prices, 0);
    assert_eq!(plans.len(), 1);
    assert_eq!(plans[0].step_id, 2);
    assert!(matches!(plans[0].decision, StepDecision::Ready(_)));
}

#[test]
fn evaluation_failure_is_recorded_and_fails_the_pipeline() {
    let mut p = swap_pipeline();
    let prices = PriceBook::new();
    let plans = frontier_plans(&p, &prices, 0);
    assert!(matches!(plans[0].decision, StepDecision::EvalFailed(_)));
    fail_step(&mut p, 1, "missing price data for asset: SOL".to_string());
    assert_eq!(p.steps[0].status, Status::Failed);
    assert_eq!(
        p.steps[0].error,
        Some("missing price data for asset: SOL".to_string())
    );
    assert_eq!(p.status, Status::Failed);
    assert!(p.current_steps.is_empty());
    assert!(p.is_terminal());
}

#[test]
fn empty_condition_list_is_immediately_ready() {
    let mut p = swap_pipeline();
    p.steps[0].conditions = vec![];
    let prices = PriceBook::new();
    let plans = frontier_plans(&p, &prices, 0);
    assert!(matches!(plans[0].decision, StepDecision::Ready(_)));
}

#[test]
fn full_tick_round_trip_through_the_engine_state() {
    // The dispatch sequence of one tick: snapshot candidates, update the
    // cache, batch, gate, evaluate, and release.
    let mut e = Engine::new();
    let p = swap_pipeline();
    e.index_pipeline(&p);
    let key = p.dedup_key();

    let candidates = e.candidate_keys("SOL");
    e.update_price("SOL", 90);
    assert_eq!(candidates, vec![key.clone()]);
    let chunks = Engine::chunk_keys(&candidates);
    assert_eq!(chunks.len(), 1);
    assert!(e.begin_evaluation(&key, &p.status));
    let plans = frontier_plans(&p, e.price_book(), 0);
    assert!(matches!(plans[0].decision, StepDecision::NotReady));
    e.finish_evaluation(&key, "SOL", p.is_terminal());
    assert_eq!(e.candidate_keys("SOL"), vec![key.clone()]);

    let mut p = p;
    let candidates = e.candidate_keys("SOL");
    e.update_price("SOL", 101);
    assert_eq!(candidates, vec![key.clone()]);
    assert!(e.begin_evaluation(&key, &p.status));
    let plans = frontier_plans(&p, e.price_book(), 0);
    assert!(matches!(plans[0].decision, StepDecision::Ready(_)));
    complete_step(&mut p, 1, Some("sig".to_string()));
    assert!(p.is_terminal());
    e.finish_evaluation(&key, "SOL", p.is_terminal());
    assert!(e.candidate_keys("SOL").is_empty());
}
