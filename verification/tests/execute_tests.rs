use listen_engine::{
    begin_execution, caip2_to_chain_id, execution_step, is_evm, is_solana, needs_approval,
    parse_u128, CollaboratorRequest, EngineError, EvmTransaction, ExecutionEvent, ExecutionPhase,
    ExecutionTurn, PaymentOrder, SwapOrder, SwapOrderTransaction,
};

const SOLANA_CAIP2: &str = "solana:5eykt4UsFv8P8NJdTREpY1vzqKqZKvdp";

fn evm_order(amount: &str, from_chain: &str) -> SwapOrder {
    SwapOrder {
        input_token: "0xTOKEN".to_string(),
        output_token: "0xOTHER".to_string(),
        amount: amount.to_string(),
        from_chain_caip2: from_chain.to_string(),
        to_chain_caip2: "eip155:1".to_string(),
    }
}

fn solana_order() -> SwapOrder {
    SwapOrder {
        input_token: "SOL".to_string(),
        output_token: "USDC".to_string(),
        amount: "1000".to_string(),
        from_chain_caip2: SOLANA_CAIP2.to_string(),
        to_chain_caip2: SOLANA_CAIP2.to_string(),
    }
}

fn built_evm(to: &str) -> ExecutionEvent {
    ExecutionEvent::TransactionBuilt(SwapOrderTransaction::Evm(EvmTransaction {
        to: to.to_string(),
        payload: "calldata".to_string(),
    }))
}

#[test]
fn address_selection_follows_the_address_space_family() {
    let (exec, _) = begin_execution(evm_order("10", "eip155:1"), "u1", "0xwallet", "pubkey");
    assert_eq!(exec.envelope.address, "0xwallet");
    let (exec, _) = begin_execution(solana_order(), "u1", "0xwallet", "pubkey");
    assert_eq!(exec.envelope.address, "pubkey");
}

#[test]
fn begin_execution_asks_the_bridge_first() {
    let (exec, request) = begin_execution(evm_order("10", "eip155:1"), "u1", "0xw", "pk");
    assert!(matches!(exec.phase, ExecutionPhase::BuildingTransaction));
    assert!(exec.envelope.evm_transaction.is_none());
    assert!(exec.envelope.solana_transaction.is_none());
    match request {
        CollaboratorRequest::BuildTransaction { order, wallet_address, pubkey } => {
            assert_eq!(order.input_token, "0xTOKEN");
            assert_eq!(wallet_address, "0xw");
            assert_eq!(pubkey, "pk");
        },
        other => panic!("expected a bridge build request, got {:?}", other),
    }
}

#[test]
fn evm_path_with_enough_allowance_submits_without_approval() {
    let (exec, _) = begin_execution(evm_order("1000", "eip155:1"), "u1", "0xw", "pk");
    let (exec, turn) = execution_step(exec, built_evm("0xspender"));
    match turn {
        ExecutionTurn::Next(CollaboratorRequest::ReadAllowance {
            token,
            owner,
            spender,
            chain_id,
        }) => {
            assert_eq!(token, "0xTOKEN");
            assert_eq!(owner, "0xw");
            assert_eq!(spender, "0xspender");
            assert_eq!(chain_id, 1);
        },
        other => panic!("expected an allowance read, got {:?}", other),
    }
    let (exec, turn) = execution_step(exec, ExecutionEvent::AllowanceRead(1000));
    match turn {
        ExecutionTurn::Next(CollaboratorRequest::SubmitTransaction { envelope }) => {
            let tx = envelope.evm_transaction.expect("the swap must be attached");
            assert_eq!(tx.to, "0xspender");
        },
        other => panic!("expected a direct submission, got {:?}", other),
    }
    let (exec, turn) = execution_step(exec, ExecutionEvent::Submitted("0xhash".to_string()));
    assert!(matches!(turn, ExecutionTurn::Finished(h) if h == "0xhash"));
    assert!(matches!(exec.phase, ExecutionPhase::Finished { .. }));
}

#[test]
fn evm_path_with_short_allowance_approves_first() {
    let (exec, _) = begin_execution(evm_order("1000", "eip155:8453"), "u1", "0xw", "pk");
    let (exec, _) = execution_step(exec, built_evm("0xspender"));
    let (exec, turn) = execution_step(exec, ExecutionEvent::AllowanceRead(999));
    match turn {
        ExecutionTurn::Next(CollaboratorRequest::BuildApproval {
            token,
            spender,
            owner,
            chain_id,
        }) => {
            assert_eq!(token, "0xTOKEN");
            assert_eq!(spender, "0xspender");
            assert_eq!(owner, "0xw");
            assert_eq!(chain_id, 8453);
        },
        other => panic!("expected an approval build, got {:?}", other),
    }
    let approval = EvmTransaction { to: "0xTOKEN".to_string(), payload: "approve".to_string() };
    let (exec, turn) = execution_step(exec, ExecutionEvent::ApprovalBuilt(approval));
    match turn {
        ExecutionTurn::Next(CollaboratorRequest::SubmitTransaction { envelope }) => {
            assert_eq!(envelope.evm_transaction.expect("approval attached").payload, "approve");
        },
        other => panic!("expected the approval submission, got {:?}", other),
    }
    // The approval is submitted but not awaited on-chain before the swap goes
    // out: the next turn is already the swap submission.
    let (exec, turn) = execution_step(exec, ExecutionEvent::Submitted("0xapproval".to_string()));
    match turn {
        ExecutionTurn::Next(CollaboratorRequest::SubmitTransaction { envelope }) => {
            assert_eq!(envelope.evm_transaction.expect("swap attached").payload, "calldata");
        },
        other => panic!("expected the swap submission, got {:?}", other),
    }
    let (_, turn) = execution_step(exec, ExecutionEvent::Submitted("0xswap".to_string()));
    assert!(matches!(turn, ExecutionTurn::Finished(h) if h == "0xswap"));
}

#[test]
fn solana_path_stamps_a_fresh_blockhash_before_submitting() {
    let (exec, _) = begin_execution(solana_order(), "u1", "0xw", "pk");
    let built =
        ExecutionEvent::TransactionBuilt(SwapOrderTransaction::Solana("encoded".to_string()));
    let (exec, turn) = execution_step(exec, built);
    assert!(matches!(turn, ExecutionTurn::Next(CollaboratorRequest::FetchBlockhash)));
    let (exec, turn) = execution_step(exec, ExecutionEvent::BlockhashFetched("HASH".to_string()));
    match turn {
        ExecutionTurn::Next(CollaboratorRequest::StampBlockhash { transaction, blockhash }) => {
            assert_eq!(transaction, "encoded");
            assert_eq!(blockhash, "HASH");
        },
        other => panic!("expected a stamp request, got {:?}", other),
    }
    let (exec, turn) =
        execution_step(exec, ExecutionEvent::BlockhashStamped("stamped".to_string()));
    match turn {
        ExecutionTurn::Next(CollaboratorRequest::SubmitTransaction { envelope }) => {
            assert_eq!(envelope.solana_transaction, Some("stamped".to_string()));
            assert_eq!(envelope.address, "pk");
        },
        other => panic!("expected the submission, got {:?}", other),
    }
    let (_, turn) = execution_step(exec, ExecutionEvent::Submitted("sig".to_string()));
    assert!(matches!(turn, ExecutionTurn::Finished(h) if h == "sig"));
}

#[test]
fn each_failure_point_surfaces_its_own_error_kind() {
    let (exec, _) = begin_execution(evm_order("10", "eip155:1"), "u1", "0xw", "pk");
    let (_, turn) = execution_step(exec, ExecutionEvent::BuildFailed("bridge down".to_string()));
    assert!(matches!(turn, ExecutionTurn::Failed(EngineError::SwapOrderError(_))));

    let (exec, _) = begin_execution(evm_order("10", "eip155:1"), "u1", "0xw", "pk");
    let (exec, _) = execution_step(exec, built_evm("0xs"));
    let (_, turn) =
        execution_step(exec, ExecutionEvent::AllowanceReadFailed("rpc error".to_string()));
    assert!(matches!(turn, ExecutionTurn::Failed(EngineError::ApprovalsError(_))));

    let (exec, _) = begin_execution(solana_order(), "u1", "0xw", "pk");
    let built =
        ExecutionEvent::TransactionBuilt(SwapOrderTransaction::Solana("tx".to_string()));
    let (exec, _) = execution_step(exec, built);
    let (_, turn) =
        execution_step(exec, ExecutionEvent::BlockhashFetchFailed("no hash".to_string()));
    assert!(matches!(turn, ExecutionTurn::Failed(EngineError::BlockhashCacheError(_))));

    let (exec, _) = begin_execution(solana_order(), "u1", "0xw", "pk");
    let built =
        ExecutionEvent::TransactionBuilt(SwapOrderTransaction::Solana("tx".to_string()));
    let (exec, _) = execution_step(exec, built);
    let (exec, _) = execution_step(exec, ExecutionEvent::BlockhashFetched("H".to_string()));
    let (_, turn) =
        execution_step(exec, ExecutionEvent::BlockhashStampFailed("bad tx".to_string()));
    assert!(matches!(turn, ExecutionTurn::Failed(EngineError::InjectBlockhashError(_))));

    let (exec, _) = begin_execution(evm_order("10", "eip155:1"), "u1", "0xw", "pk");
    let (exec, _) = execution_step(exec, built_evm("0xs"));
    let (exec, _) = execution_step(exec, ExecutionEvent::AllowanceRead(10));
    let (_, turn) = execution_step(exec, ExecutionEvent::SubmitFailed("rejected".to_string()));
    assert!(matches!(turn, ExecutionTurn::Failed(EngineError::TransactionError(_))));
}

#[test]
fn unknown_chain_and_bad_amount_are_data_errors() {
    let (exec, _) = begin_execution(evm_order("10", "eip155:424242"), "u1", "0xw", "pk");
    let (exec, turn) = execution_step(exec, built_evm("0xs"));
    assert!(matches!(turn, ExecutionTurn::Failed(EngineError::UnknownChainError(_))));
    assert!(matches!(exec.phase, ExecutionPhase::Failed { .. }));

    let (exec, _) = begin_execution(evm_order("not-a-number", "eip155:1"), "u1", "0xw", "pk");
    let (_, turn) = execution_step(exec, built_evm("0xs"));
    assert!(matches!(turn, ExecutionTurn::Failed(EngineError::InvalidAmountError(_))));
}

#[test]
fn needs_approval_is_strictly_less_than() {
    assert!(needs_approval(0, 1));
    assert!(needs_approval(999, 1000));
    assert!(!needs_approval(1000, 1000));
    assert!(!needs_approval(1001, 1000));
}

#[test]
fn decimal_amounts_parse_like_the_standard_parser() {
    assert_eq!(parse_u128("0"), Some(0));
    assert_eq!(parse_u128("123"), Some(123));
    assert_eq!(parse_u128("+123"), Some(123));
    assert_eq!(parse_u128(""), None);
    assert_eq!(parse_u128("+"), None);
    assert_eq!(parse_u128("12a"), None);
    assert_eq!(parse_u128("-12"), None);
    assert_eq!(
        parse_u128("340282366920938463463374607431768211455"),
        Some(u128::MAX)
    );
    assert_eq!(parse_u128("340282366920938463463374607431768211456"), None);
    assert_eq!("123".parse::<u128>().ok(), parse_u128("123"));
    assert_eq!("+07".parse::<u128>().ok(), parse_u128("+07"));
}

#[test]
fn chain_identifiers_resolve_to_bridge_chain_numbers() {
    assert_eq!(caip2_to_chain_id(SOLANA_CAIP2), Some(1151111081099710));
    assert_eq!(caip2_to_chain_id("eip155:1"), Some(1));
    assert_eq!(caip2_to_chain_id("eip155:56"), Some(56));
    assert_eq!(caip2_to_chain_id("eip155:8453"), Some(8453));
    assert_eq!(caip2_to_chain_id("eip155:42161"), Some(42161));
    assert_eq!(caip2_to_chain_id("eip155:80094"), Some(80094));
    assert_eq!(caip2_to_chain_id("eip155:424242"), None);
    assert_eq!(caip2_to_chain_id("cosmos:hub"), None);
}

#[test]
fn address_space_families_are_told_by_prefix() {
    assert!(is_solana(SOLANA_CAIP2));
    assert!(is_solana("solana:devnet"));
    assert!(!is_solana("eip155:1"));
    assert!(!is_solana("sol"));
    assert!(is_evm("eip155:1"));
    assert!(is_evm("eip155:8453"));
    assert!(!is_evm("solana:x"));
    assert!(!is_evm(""));
    let payment = PaymentOrder {
        input_token: "a".to_string(),
        output_token: "b".to_string(),
        amount: "1".to_string(),
        from_chain_caip2: "eip155:10".to_string(),
        to_chain_caip2: SOLANA_CAIP2.to_string(),
    };
    assert!(payment.is_evm());
}

#[test]
fn evaluator_errors_wrap_into_engine_errors() {
    let err = listen_engine::EvaluatorError::MissingPriceData("SOL".to_string());
    let wrapped: EngineError = err.into();
    assert_eq!(
        wrapped,
        EngineError::EvaluatePipelineError(listen_engine::EvaluatorError::MissingPriceData(
            "SOL".to_string()
        ))
    );
}
