use vstd::prelude::*;

use crate::evaluator::EvaluatorError;

verus! {

/// The engine's failure taxonomy: evaluator failures bubble up wrapped, the
/// data errors name their bad input, and each collaborator failure keeps its
/// own kind so callers can tell them apart. None is retried here.
#[derive(Debug, PartialEq, Eq)]
pub enum EngineError {
    EvaluatePipelineError(EvaluatorError),
    SwapOrderError(String),
    BlockhashCacheError(String),
    InjectBlockhashError(String),
    TransactionError(String),
    ApprovalsError(String),
    UnknownChainError(String),
    InvalidAmountError(String),
}

impl From<EvaluatorError> for EngineError {
    fn from(err: EvaluatorError) -> (r: EngineError) {
        EngineError::EvaluatePipelineError(err)
    }
}

impl vstd::std_specs::convert::FromSpecImpl<EvaluatorError> for EngineError {
    open spec fn obeys_from_spec() -> bool {
        true
    }

    open spec fn from_spec(err: EvaluatorError) -> EngineError {
        EngineError::EvaluatePipelineError(err)
    }
}

} // verus!
