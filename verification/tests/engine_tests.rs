use listen_engine::{
    store_key, Action, Condition, ConditionType, Engine, Notification, Pipeline, PipelineStep,
    Status,
};

fn cond(condition_type: ConditionType) -> Condition {
    Condition { condition_type, triggered: false, last_evaluated: None }
}

fn notify_step(id: u64, conditions: Vec<Condition>, next_steps: Vec<u64>) -> PipelineStep {
    PipelineStep {
        id,
        action: Action::Notification(Notification { message: "ping".to_string() }),
        conditions,
        next_steps,
        status: Status::Pending,
        transaction_hash: None,
        error: None,
    }
}

fn pipeline(id: &str, user: &str, steps: Vec<PipelineStep>, frontier: Vec<u64>) -> Pipeline {
    Pipeline {
        id: id.to_string(),
        user_id: user.to_string(),
        wallet_address: "0xwallet".to_string(),
        pubkey: "pubkey".to_string(),
        current_steps: frontier,
        steps,
        status: Status::Pending,
        created_at: 0,
    }
}

#[test]
fn dedup_and_store_keys_are_user_colon_pipeline() {
    let p = pipeline("pipe1", "alice", vec![], vec![]);
    let key = p.dedup_key();
    assert_eq!(key, "alice:pipe1");
    assert_eq!(store_key(&key), "pipeline:alice:pipe1");
}

#[test]
fn price_cache_is_last_write_wins() {
    let mut e = Engine::new();
    assert_eq!(e.price_of("SOL"), None);
    e.update_price("SOL", 100);
    assert_eq!(e.price_of("SOL"), Some(100));
    e.update_price("SOL", 90);
    assert_eq!(e.price_of("SOL"), Some(90));
    assert_eq!(e.price_of("ETH"), None);
}

#[test]
fn second_claim_while_first_holds_the_key_is_skipped() {
    // Two ticks referencing one pipeline while its evaluation is in flight:
    // exactly one claim succeeds; after release the key can be claimed again.
    let mut e = Engine::new();
    let key = "alice:pipe1".to_string();
    assert!(e.begin_evaluation(&key, &Status::Pending));
    assert!(!e.begin_evaluation(&key, &Status::Pending));
    assert_eq!(e.pending_task_count(), 1);
    e.finish_evaluation(&key, "SOL", false);
    assert_eq!(e.pending_task_count(), 0);
    assert!(e.begin_evaluation(&key, &Status::Pending));
}

#[test]
fn non_pending_records_are_never_claimed() {
    let mut e = Engine::new();
    let key = "alice:pipe1".to_string();
    assert!(!e.begin_evaluation(&key, &Status::Completed));
    assert!(!e.begin_evaluation(&key, &Status::Failed));
    assert!(!e.begin_evaluation(&key, &Status::Cancelled));
    assert_eq!(e.pending_task_count(), 0);
}

#[test]
fn pipeline_indexed_under_one_asset_is_not_selected_for_another() {
    let mut e = Engine::new();
    let p = pipeline(
        "pipe1",
        "alice",
        vec![notify_step(
            1,
            vec![cond(ConditionType::PriceAbove { asset: "SOL".to_string(), value: 100 })],
            vec![],
        )],
        vec![1],
    );
    e.index_pipeline(&p);
    assert!(e.candidate_keys("ETH").is_empty());
    assert_eq!(e.candidate_keys("SOL"), vec!["alice:pipe1".to_string()]);
}

#[test]
fn now_condition_pipeline_is_selected_on_every_tick() {
    let mut e = Engine::new();
    let p = pipeline(
        "pipe2",
        "bob",
        vec![notify_step(
            1,
            vec![cond(ConditionType::Now { asset: "NOW".to_string() })],
            vec![],
        )],
        vec![1],
    );
    e.index_pipeline(&p);
    assert_eq!(e.candidate_keys("SOL"), vec!["bob:pipe2".to_string()]);
    assert_eq!(e.candidate_keys("ANYTHING"), vec!["bob:pipe2".to_string()]);
}

#[test]
fn terminal_finish_removes_the_key_from_the_tick_assets_bucket() {
    let mut e = Engine::new();
    let p = pipeline(
        "pipe1",
        "alice",
        vec![notify_step(
            1,
            vec![cond(ConditionType::PriceAbove { asset: "SOL".to_string(), value: 100 })],
            vec![],
        )],
        vec![1],
    );
    e.index_pipeline(&p);
    let key = p.dedup_key();
    assert!(e.begin_evaluation(&key, &Status::Pending));
    e.finish_evaluation(&key, "SOL", true);
    assert!(e.candidate_keys("SOL").is_empty());
}

#[test]
fn interrupted_finish_keeps_the_pipeline_reachable() {
    let mut e = Engine::new();
    let p = pipeline(
        "pipe1",
        "alice",
        vec![notify_step(
            1,
            vec![cond(ConditionType::PriceAbove { asset: "SOL".to_string(), value: 100 })],
            vec![],
        )],
        vec![1],
    );
    e.index_pipeline(&p);
    let key = p.dedup_key();
    assert!(e.begin_evaluation(&key, &Status::Pending));
    e.finish_evaluation(&key, "SOL", false);
    assert_eq!(e.candidate_keys("SOL"), vec!["alice:pipe1".to_string()]);
}

#[test]
fn twenty_five_candidates_make_three_batches_of_ten_ten_five() {
    let mut keys: Vec<String> = Vec::new();
    for i in 0..25 {
        keys.push(format!("user:pipe{}", i));
    }
    let chunks = Engine::chunk_keys(&keys);
    assert_eq!(chunks.len(), 3);
    assert_eq!(chunks[0].len(), 10);
    assert_eq!(chunks[1].len(), 10);
    assert_eq!(chunks[2].len(), 5);
    let mut flat: Vec<String> = Vec::new();
    for c in &chunks {
        for k in c {
            flat.push(k.clone());
        }
    }
    assert_eq!(flat, keys);
}

#[test]
fn chunking_edge_sizes() {
    let empty: Vec<String> = Vec::new();
    assert!(Engine::chunk_keys(&empty).is_empty());
    let one = vec!["a:b".to_string()];
    let chunks = Engine::chunk_keys(&one);
    assert_eq!(chunks.len(), 1);
    assert_eq!(chunks[0].len(), 1);
    let ten: Vec<String> = (0..10).map(|i| format!("u:p{}", i)).collect();
    let chunks = Engine::chunk_keys(&ten);
    assert_eq!(chunks.len(), 1);
    assert_eq!(chunks[0].len(), 10);
}

#[test]
fn startup_rebuild_projects_every_record_whatever_its_status() {
    let mut e = Engine::new();
    let mut done = pipeline(
        "pipe1",
        "alice",
        vec![notify_step(
            1,
            vec![cond(ConditionType::PriceAbove { asset: "SOL".to_string(), value: 100 })],
            vec![],
        )],
        vec![1],
    );
    done.status = Status::Completed;
    let live = pipeline(
        "pipe2",
        "bob",
        vec![notify_step(
            1,
            vec![cond(ConditionType::PriceBelow { asset: "ETH".to_string(), value: 5 })],
            vec![],
        )],
        vec![1],
    );
    e.load_pipelines(&vec![done, live]);
    assert_eq!(e.candidate_keys("SOL"), vec!["alice:pipe1".to_string()]);
    assert_eq!(e.candidate_keys("ETH"), vec!["bob:pipe2".to_string()]);
}

#[test]
fn shutdown_waits_for_every_pending_unit() {
    // With three units outstanding the drain condition only holds after all
    // three have finished; the cancellation notification is recorded first.
    let mut e = Engine::new();
    let keys = vec![
        "a:p1".to_string(),
        "a:p2".to_string(),
        "a:p3".to_string(),
    ];
    for k in &keys {
        assert!(e.begin_evaluation(k, &Status::Pending));
    }
    e.request_shutdown();
    assert!(!e.shutdown_complete());
    e.finish_evaluation(&keys[0], "SOL", false);
    assert!(!e.shutdown_complete());
    e.finish_evaluation(&keys[1], "SOL", false);
    assert!(!e.shutdown_complete());
    e.finish_evaluation(&keys[2], "SOL", false);
    assert!(e.shutdown_complete());
    assert_eq!(e.pending_task_count(), 0);
}

#[test]
fn extract_assets_covers_nested_conditions_and_sentinel() {
    let p = pipeline(
        "pipe1",
        "alice",
        vec![notify_step(
            1,
            vec![cond(ConditionType::And(vec![
                cond(ConditionType::PriceAbove { asset: "SOL".to_string(), value: 1 }),
                cond(ConditionType::Or(vec![
                    cond(ConditionType::PriceBelow { asset: "ETH".to_string(), value: 2 }),
                    cond(ConditionType::Now { asset: "NOW".to_string() }),
                ])),
                cond(ConditionType::GTTimer(5)),
            ]))],
            vec![],
        )],
        vec![1],
    );
    let mut assets = p.extract_assets();
    assets.sort();
    assets.dedup();
    assert_eq!(
        assets,
        vec!["ETH".to_string(), "NOW".to_string(), "SOL".to_string()]
    );
}
