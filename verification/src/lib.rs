use vstd::prelude::*;

mod advance;
mod clock;
mod engine;
mod errors;
mod evaluator;
mod execute;
mod order;
mod payment;
mod pipeline;
mod prices;
mod strings;

pub use advance::{
    complete_step, fail_step, frontier_plans, spec_plan_ok, StepDecision, StepPlan,
};
pub use clock::now_millis;
pub use errors::EngineError;
pub use engine::{
    distinct_views, key_set, lemma_at_most_one_evaluation, lemma_bucket_seq_set,
    lemma_candidate_selection, lemma_key_set_push, spec_can_claim, spec_sentinel_asset, str_views,
    Engine,
};
pub use execute::{
    begin_execution, execution_step, needs_approval, spec_event_fits, spec_execution_step,
    CollaboratorRequest, ExecutionEvent, ExecutionPhase, ExecutionTurn, OrderExecution,
    TransactionEnvelope,
};
pub use evaluator::{
    lemma_conditions_true_iff_each, spec_eval_all, spec_eval_any, spec_eval_condition,
    spec_matches_eval, Evaluator, EvaluatorError,
};
pub use pipeline::{
    spec_condition_assets, spec_conditions_assets, spec_dedup_key, spec_store_key, store_key,
    Action, Condition, ConditionType, Notification, Pipeline, PipelineStep, Status,
};
pub use order::{EvmTransaction, SwapOrder, SwapOrderTransaction};
pub use payment::{
    caip2_to_chain_id, is_evm, is_solana, spec_caip2_to_chain_id, spec_is_evm, spec_is_solana,
    PaymentOrder, PaymentOrderError, PaymentOrderTransaction,
};
pub use prices::PriceBook;
pub use strings::{
    all_digits, digits_value, parse_u128, spec_parse_u128, spec_starts_with, starts_with_str,
    str_eq,
};

