use vstd::prelude::*;

use crate::errors::EngineError;
use crate::order::{EvmTransaction, SwapOrder, SwapOrderTransaction};
use crate::payment::caip2_to_chain_id;
use crate::payment::spec_caip2_to_chain_id;
use crate::strings::{parse_u128, spec_parse_u128};

verus! {

/// What the wallet-custody collaborator accepts: the owning user, the
/// submission address, the chain pair, and at most one chain-specific
/// transaction.
#[derive(Debug)]
pub struct TransactionEnvelope {
    pub user_id: String,
    pub address: String,
    pub from_chain_caip2: String,
    pub to_chain_caip2: String,
    pub evm_transaction: Option<EvmTransaction>,
    pub solana_transaction: Option<String>,
}

impl TransactionEnvelope {
    /// An equal copy, field by field.
    pub fn duplicate(&self) -> (r: TransactionEnvelope)
        ensures
            r == *self,
    {
        TransactionEnvelope {
            user_id: self.user_id.clone(),
            address: self.address.clone(),
            from_chain_caip2: self.from_chain_caip2.clone(),
            to_chain_caip2: self.to_chain_caip2.clone(),
            evm_transaction: match &self.evm_transaction {
                Some(t) => Some(t.duplicate()),
                None => None,
            },
            solana_transaction: match &self.solana_transaction {
                Some(s) => Some(s.clone()),
                None => None,
            },
        }
    }
}

/// Where one order's execution stands between collaborator calls.
#[derive(Debug)]
pub enum ExecutionPhase {
    BuildingTransaction,
    ReadingAllowance { transaction: EvmTransaction, spender: String, chain_id: u64, amount: u128 },
    BuildingApproval { transaction: EvmTransaction, spender: String, chain_id: u64 },
    SubmittingApproval { transaction: EvmTransaction },
    FetchingBlockhash { transaction: String },
    StampingBlockhash { transaction: String },
    SubmittingOrder,
    Finished { transaction_hash: String },
    Failed { error: EngineError },
}

/// The next piece of outside work the runtime must perform for an execution.
#[derive(Debug)]
pub enum CollaboratorRequest {
    BuildTransaction { order: SwapOrder, wallet_address: String, pubkey: String },
    ReadAllowance { token: String, owner: String, spender: String, chain_id: u64 },
    BuildApproval { token: String, spender: String, owner: String, chain_id: u64 },
    SubmitTransaction { envelope: TransactionEnvelope },
    FetchBlockhash,
    StampBlockhash { transaction: String, blockhash: String },
}

/// What the runtime reports back from one collaborator call.
#[derive(Debug)]
pub enum ExecutionEvent {
    TransactionBuilt(SwapOrderTransaction),
    BuildFailed(String),
    AllowanceRead(u128),
    AllowanceReadFailed(String),
    ApprovalBuilt(EvmTransaction),
    ApprovalBuildFailed(String),
    BlockhashFetched(String),
    BlockhashFetchFailed(String),
    BlockhashStamped(String),
    BlockhashStampFailed(String),
    Submitted(String),
    SubmitFailed(String),
}

/// How one execution turn ends: more outside work, a submitted transaction
/// identifier, or a failure of one distinct kind, never retried here.
#[derive(Debug)]
pub enum ExecutionTurn {
    Next(CollaboratorRequest),
    Finished(String),
    Failed(EngineError),
}

/// One order's execution: the order, the envelope being assembled for the
/// wallet-custody collaborator, and the phase.
#[derive(Debug)]
pub struct OrderExecution {
    pub order: SwapOrder,
    pub envelope: TransactionEnvelope,
    pub phase: ExecutionPhase,
}

/// Which events can answer the outstanding request of each phase.
pub open spec fn spec_event_fits(phase: ExecutionPhase, event: ExecutionEvent) -> bool {
    match phase {
        ExecutionPhase::BuildingTransaction => event is TransactionBuilt || event is BuildFailed,
        ExecutionPhase::ReadingAllowance { .. } => event is AllowanceRead
            || event is AllowanceReadFailed,
        ExecutionPhase::BuildingApproval { .. } => event is ApprovalBuilt
            || event is ApprovalBuildFailed,
        ExecutionPhase::SubmittingApproval { .. } => event is Submitted || event is SubmitFailed,
        ExecutionPhase::FetchingBlockhash { .. } => event is BlockhashFetched
            || event is BlockhashFetchFailed,
        ExecutionPhase::StampingBlockhash { .. } => event is BlockhashStamped
            || event is BlockhashStampFailed,
        ExecutionPhase::SubmittingOrder => event is Submitted || event is SubmitFailed,
        ExecutionPhase::Finished { .. } => false,
        ExecutionPhase::Failed { .. } => false,
    }
}

/// The transition relation of order execution, written out once: it selects
/// the EVM or Solana path from what the bridge built, asks for an approval
/// exactly when the read allowance falls short of the order amount, submits
/// the approval without waiting for on-chain confirmation, stamps a Solana
/// transaction with the fetched blockhash immediately before submission, and
/// maps each collaborator failure to its own error kind.
pub open spec fn spec_execution_step(e: OrderExecution, event: ExecutionEvent) -> (
    OrderExecution,
    ExecutionTurn,
) {
    match (e.phase, event) {
        (ExecutionPhase::BuildingTransaction, ExecutionEvent::TransactionBuilt(built)) => match built {
            SwapOrderTransaction::Evm(tx) => {
                match spec_caip2_to_chain_id(e.order.from_chain_caip2@) {
                    Some(chain_id) => match spec_parse_u128(e.order.amount@) {
                        Some(amount) => (
                            OrderExecution {
                                phase: ExecutionPhase::ReadingAllowance {
                                    transaction: tx,
                                    spender: tx.to,
                                    chain_id,
                                    amount,
                                },
                                ..e
                            },
                            ExecutionTurn::Next(
                                CollaboratorRequest::ReadAllowance {
                                    token: e.order.input_token,
                                    owner: e.envelope.address,
                                    spender: tx.to,
                                    chain_id,
                                },
                            ),
                        ),
                        None => {
                            let err = EngineError::InvalidAmountError(e.order.amount);
                            (
                                OrderExecution { phase: ExecutionPhase::Failed { error: err }, ..e },
                                ExecutionTurn::Failed(err),
                            )
                        },
                    },
                    None => {
                        let err = EngineError::UnknownChainError(e.order.from_chain_caip2);
                        (
                            OrderExecution { phase: ExecutionPhase::Failed { error: err }, ..e },
                            ExecutionTurn::Failed(err),
                        )
                    },
                }
            },
            SwapOrderTransaction::Solana(tx) => (
                OrderExecution { phase: ExecutionPhase::FetchingBlockhash { transaction: tx }, ..e },
                ExecutionTurn::Next(CollaboratorRequest::FetchBlockhash),
            ),
        },
        (ExecutionPhase::BuildingTransaction, ExecutionEvent::BuildFailed(m)) => {
            let err = EngineError::SwapOrderError(m);
            (
                OrderExecution { phase: ExecutionPhase::Failed { error: err }, ..e },
                ExecutionTurn::Failed(err),
            )
        },
        (
            ExecutionPhase::ReadingAllowance { transaction, spender, chain_id, amount },
            ExecutionEvent::AllowanceRead(allowance),
        ) => if allowance >= amount {
            let envelope = TransactionEnvelope {
                evm_transaction: Some(transaction),
                ..e.envelope
            };
            (
                OrderExecution { envelope, phase: ExecutionPhase::SubmittingOrder, ..e },
                ExecutionTurn::Next(CollaboratorRequest::SubmitTransaction { envelope }),
            )
        } else {
            (
                OrderExecution {
                    phase: ExecutionPhase::BuildingApproval { transaction, spender, chain_id },
                    ..e
                },
                ExecutionTurn::Next(
                    CollaboratorRequest::BuildApproval {
                        token: e.order.input_token,
                        spender,
                        owner: e.envelope.address,
                        chain_id,
                    },
                ),
            )
        },
        (ExecutionPhase::ReadingAllowance { .. }, ExecutionEvent::AllowanceReadFailed(m)) => {
            let err = EngineError::ApprovalsError(m);
            (
                OrderExecution { phase: ExecutionPhase::Failed { error: err }, ..e },
                ExecutionTurn::Failed(err),
            )
        },
        (
            ExecutionPhase::BuildingApproval { transaction, spender, chain_id },
            ExecutionEvent::ApprovalBuilt(approval),
        ) => (
            OrderExecution {
                phase: ExecutionPhase::SubmittingApproval { transaction },
                ..e
            },
            ExecutionTurn::Next(
                CollaboratorRequest::SubmitTransaction {
                    envelope: TransactionEnvelope { evm_transaction: Some(approval), ..e.envelope },
                },
            ),
        ),
        (ExecutionPhase::BuildingApproval { .. }, ExecutionEvent::ApprovalBuildFailed(m)) => {
            let err = EngineError::ApprovalsError(m);
            (
                OrderExecution { phase: ExecutionPhase::Failed { error: err }, ..e },
                ExecutionTurn::Failed(err),
            )
        },
        (ExecutionPhase::SubmittingApproval { transaction }, ExecutionEvent::Submitted(h)) => {
            let envelope = TransactionEnvelope {
                evm_transaction: Some(transaction),
                ..e.envelope
            };
            (
                OrderExecution { envelope, phase: ExecutionPhase::SubmittingOrder, ..e },
                ExecutionTurn::Next(CollaboratorRequest::SubmitTransaction { envelope }),
            )
        },
        (ExecutionPhase::SubmittingApproval { .. }, ExecutionEvent::SubmitFailed(m)) => {
            let err = EngineError::TransactionError(m);
            (
                OrderExecution { phase: ExecutionPhase::Failed { error: err }, ..e },
                ExecutionTurn::Failed(err),
            )
        },
        (ExecutionPhase::FetchingBlockhash { transaction }, ExecutionEvent::BlockhashFetched(bh)) => (
            OrderExecution {
                phase: ExecutionPhase::StampingBlockhash { transaction },
                ..e
            },
            ExecutionTurn::Next(CollaboratorRequest::StampBlockhash { transaction, blockhash: bh }),
        ),
        (ExecutionPhase::FetchingBlockhash { .. }, ExecutionEvent::BlockhashFetchFailed(m)) => {
            let err = EngineError::BlockhashCacheError(m);
            (
                OrderExecution { phase: ExecutionPhase::Failed { error: err }, ..e },
                ExecutionTurn::Failed(err),
            )
        },
        (ExecutionPhase::StampingBlockhash { .. }, ExecutionEvent::BlockhashStamped(stamped)) => {
            let envelope = TransactionEnvelope {
                solana_transaction: Some(stamped),
                ..e.envelope
            };
            (
                OrderExecution { envelope, phase: ExecutionPhase::SubmittingOrder, ..e },
                ExecutionTurn::Next(CollaboratorRequest::SubmitTransaction { envelope }),
            )
        },
        (ExecutionPhase::StampingBlockhash { .. }, ExecutionEvent::BlockhashStampFailed(m)) => {
            let err = EngineError::InjectBlockhashError(m);
            (
                OrderExecution { phase: ExecutionPhase::Failed { error: err }, ..e },
                ExecutionTurn::Failed(err),
            )
        },
        (ExecutionPhase::SubmittingOrder, ExecutionEvent::Submitted(h)) => (
            OrderExecution { phase: ExecutionPhase::Finished { transaction_hash: h }, ..e },
            ExecutionTurn::Finished(h),
        ),
        (ExecutionPhase::SubmittingOrder, ExecutionEvent::SubmitFailed(m)) => {
            let err = EngineError::TransactionError(m);
            (
                OrderExecution { phase: ExecutionPhase::Failed { error: err }, ..e },
                ExecutionTurn::Failed(err),
            )
        },
        _ => arbitrary(),
    }
}

/// Opens an execution: the submission address is the EVM wallet address for an
/// EVM-family source chain and the Solana public key otherwise, the envelope
/// starts with no transaction, and the bridge is asked to build one.
pub fn begin_execution(order: SwapOrder, user_id: &str, wallet_address: &str, pubkey: &str) -> (r: (
    OrderExecution,
    CollaboratorRequest,
))
    ensures
        r.0.order == order,
        r.0.envelope.user_id@ == user_id@,
        r.0.envelope.address@ == (if crate::payment::spec_is_evm(order.from_chain_caip2@) {
            wallet_address@
        } else {
            pubkey@
        }),
        r.0.envelope.from_chain_caip2 == order.from_chain_caip2,
        r.0.envelope.to_chain_caip2 == order.to_chain_caip2,
        r.0.envelope.evm_transaction is None,
        r.0.envelope.solana_transaction is None,
        r.0.phase is BuildingTransaction,
        (r.1 matches CollaboratorRequest::BuildTransaction { order: o, wallet_address: w, pubkey: k }
            && o == order && w@ == wallet_address@ && k@ == pubkey@),
{
    let address = if order.is_evm() {
        wallet_address.to_owned()
    } else {
        pubkey.to_owned()
    };
    let envelope = TransactionEnvelope {
        user_id: user_id.to_owned(),
        address,
        from_chain_caip2: order.from_chain_caip2.clone(),
        to_chain_caip2: order.to_chain_caip2.clone(),
        evm_transaction: None,
        solana_transaction: None,
    };
    let request = CollaboratorRequest::BuildTransaction {
        order: order.duplicate(),
        wallet_address: wallet_address.to_owned(),
        pubkey: pubkey.to_owned(),
    };
    (OrderExecution { order, envelope, phase: ExecutionPhase::BuildingTransaction }, request)
}

/// Whether the swap must be preceded by an approval: the on-chain allowance
/// falls short of the order amount.
pub fn needs_approval(allowance: u128, amount: u128) -> (r: bool)
    ensures
        r == (allowance < amount),
{
    allowance < amount
}

/// Feeds one collaborator outcome into an execution and takes the next
/// transition of the relation written in `spec_execution_step`.
pub fn execution_step(exec: OrderExecution, event: ExecutionEvent) -> (r: (
    OrderExecution,
    ExecutionTurn,
))
    requires
        spec_event_fits(exec.phase, event),
    ensures
        r == spec_execution_step(exec, event),
{
    let OrderExecution { order, envelope, phase } = exec;
    match (phase, event) {
        (ExecutionPhase::BuildingTransaction, ExecutionEvent::TransactionBuilt(built)) => match built {
            SwapOrderTransaction::Evm(tx) => {
                match caip2_to_chain_id(order.from_chain_caip2.as_str()) {
                    Some(chain_id) => match parse_u128(order.amount.as_str()) {
                        Some(amount) => {
                            let request = CollaboratorRequest::ReadAllowance {
                                token: order.input_token.clone(),
                                owner: envelope.address.clone(),
                                spender: tx.to.clone(),
                                chain_id,
                            };
                            let spender = tx.to.clone();
                            (
                                OrderExecution {
                                    order,
                                    envelope,
                                    phase: ExecutionPhase::ReadingAllowance {
                                        transaction: tx,
                                        spender,
                                        chain_id,
                                        amount,
                                    },
                                },
                                ExecutionTurn::Next(request),
                            )
                        },
                        None => {
                            let msg = order.amount.clone();
                            (
                                OrderExecution {
                                    order,
                                    envelope,
                                    phase: ExecutionPhase::Failed {
                                        error: EngineError::InvalidAmountError(msg.clone()),
                                    },
                                },
                                ExecutionTurn::Failed(EngineError::InvalidAmountError(msg)),
                            )
                        },
                    },
                    None => {
                        let msg = order.from_chain_caip2.clone();
                        (
                            OrderExecution {
                                order,
                                envelope,
                                phase: ExecutionPhase::Failed {
                                    error: EngineError::UnknownChainError(msg.clone()),
                                },
                            },
                            ExecutionTurn::Failed(EngineError::UnknownChainError(msg)),
                        )
                    },
                }
            },
            SwapOrderTransaction::Solana(tx) => (
                OrderExecution {
                    order,
                    envelope,
                    phase: ExecutionPhase::FetchingBlockhash { transaction: tx },
                },
                ExecutionTurn::Next(CollaboratorRequest::FetchBlockhash),
            ),
        },
        (ExecutionPhase::BuildingTransaction, ExecutionEvent::BuildFailed(m)) => (
            OrderExecution {
                order,
                envelope,
                phase: ExecutionPhase::Failed { error: EngineError::SwapOrderError(m.clone()) },
            },
            ExecutionTurn::Failed(EngineError::SwapOrderError(m)),
        ),
        (
            ExecutionPhase::ReadingAllowance { transaction, spender, chain_id, amount },
            ExecutionEvent::AllowanceRead(allowance),
        ) => if allowance >= amount {
            let envelope2 = TransactionEnvelope {
                user_id: envelope.user_id,
                address: envelope.address,
                from_chain_caip2: envelope.from_chain_caip2,
                to_chain_caip2: envelope.to_chain_caip2,
                evm_transaction: Some(transaction),
                solana_transaction: envelope.solana_transaction,
            };
            let request = CollaboratorRequest::SubmitTransaction {
                envelope: envelope2.duplicate(),
            };
            (
                OrderExecution { order, envelope: envelope2, phase: ExecutionPhase::SubmittingOrder },
                ExecutionTurn::Next(request),
            )
        } else {
            let request = CollaboratorRequest::BuildApproval {
                token: order.input_token.clone(),
                spender: spender.clone(),
                owner: envelope.address.clone(),
                chain_id,
            };
            (
                OrderExecution {
                    order,
                    envelope,
                    phase: ExecutionPhase::BuildingApproval { transaction, spender, chain_id },
                },
                ExecutionTurn::Next(request),
            )
        },
        (ExecutionPhase::ReadingAllowance { .. }, ExecutionEvent::AllowanceReadFailed(m)) => (
            OrderExecution {
                order,
                envelope,
                phase: ExecutionPhase::Failed { error: EngineError::ApprovalsError(m.clone()) },
            },
            ExecutionTurn::Failed(EngineError::ApprovalsError(m)),
        ),
        (
            ExecutionPhase::BuildingApproval { transaction, spender, chain_id },
            ExecutionEvent::ApprovalBuilt(approval),
        ) => {
            let request = CollaboratorRequest::SubmitTransaction {
                envelope: TransactionEnvelope {
                    user_id: envelope.user_id.clone(),
                    address: envelope.address.clone(),
                    from_chain_caip2: envelope.from_chain_caip2.clone(),
                    to_chain_caip2: envelope.to_chain_caip2.clone(),
                    evm_transaction: Some(approval),
                    solana_transaction: match &envelope.solana_transaction {
                        Some(t) => Some(t.clone()),
                        None => None,
                    },
                },
            };
            (
                OrderExecution {
                    order,
                    envelope,
                    phase: ExecutionPhase::SubmittingApproval { transaction },
                },
                ExecutionTurn::Next(request),
            )
        },
        (ExecutionPhase::BuildingApproval { .. }, ExecutionEvent::ApprovalBuildFailed(m)) => (
            OrderExecution {
                order,
                envelope,
                phase: ExecutionPhase::Failed { error: EngineError::ApprovalsError(m.clone()) },
            },
            ExecutionTurn::Failed(EngineError::ApprovalsError(m)),
        ),
        (ExecutionPhase::SubmittingApproval { transaction }, ExecutionEvent::Submitted(h)) => {
            let envelope2 = TransactionEnvelope {
                user_id: envelope.user_id,
                address: envelope.address,
                from_chain_caip2: envelope.from_chain_caip2,
                to_chain_caip2: envelope.to_chain_caip2,
                evm_transaction: Some(transaction),
                solana_transaction: envelope.solana_transaction,
            };
            let request = CollaboratorRequest::SubmitTransaction {
                envelope: envelope2.duplicate(),
            };
            (
                OrderExecution { order, envelope: envelope2, phase: ExecutionPhase::SubmittingOrder },
                ExecutionTurn::Next(request),
            )
        },
        (ExecutionPhase::SubmittingApproval { .. }, ExecutionEvent::SubmitFailed(m)) => (
            OrderExecution {
                order,
                envelope,
                phase: ExecutionPhase::Failed { error: EngineError::TransactionError(m.clone()) },
            },
            ExecutionTurn::Failed(EngineError::TransactionError(m)),
        ),
        (ExecutionPhase::FetchingBlockhash { transaction }, ExecutionEvent::BlockhashFetched(bh)) => {
            let request = CollaboratorRequest::StampBlockhash {
                transaction: transaction.clone(),
                blockhash: bh,
            };
            (
                OrderExecution {
                    order,
                    envelope,
                    phase: ExecutionPhase::StampingBlockhash { transaction },
                },
                ExecutionTurn::Next(request),
            )
        },
        (ExecutionPhase::FetchingBlockhash { .. }, ExecutionEvent::BlockhashFetchFailed(m)) => (
            OrderExecution {
                order,
                envelope,
                phase: ExecutionPhase::Failed {
                    error: EngineError::BlockhashCacheError(m.clone()),
                },
            },
            ExecutionTurn::Failed(EngineError::BlockhashCacheError(m)),
        ),
        (ExecutionPhase::StampingBlockhash { .. }, ExecutionEvent::BlockhashStamped(stamped)) => {
            let envelope2 = TransactionEnvelope {
                user_id: envelope.user_id,
                address: envelope.address,
                from_chain_caip2: envelope.from_chain_caip2,
                to_chain_caip2: envelope.to_chain_caip2,
                evm_transaction: envelope.evm_transaction,
                solana_transaction: Some(stamped),
            };
            let request = CollaboratorRequest::SubmitTransaction {
                envelope: envelope2.duplicate(),
            };
            (
                OrderExecution { order, envelope: envelope2, phase: ExecutionPhase::SubmittingOrder },
                ExecutionTurn::Next(request),
            )
        },
        (ExecutionPhase::StampingBlockhash { .. }, ExecutionEvent::BlockhashStampFailed(m)) => (
            OrderExecution {
                order,
                envelope,
                phase: ExecutionPhase::Failed {
                    error: EngineError::InjectBlockhashError(m.clone()),
                },
            },
            ExecutionTurn::Failed(EngineError::InjectBlockhashError(m)),
        ),
        (ExecutionPhase::SubmittingOrder, ExecutionEvent::Submitted(h)) => (
            OrderExecution {
                order,
                envelope,
                phase: ExecutionPhase::Finished { transaction_hash: h.clone() },
            },
            ExecutionTurn::Finished(h),
        ),
        (ExecutionPhase::SubmittingOrder, ExecutionEvent::SubmitFailed(m)) => (
            OrderExecution {
                order,
                envelope,
                phase: ExecutionPhase::Failed { error: EngineError::TransactionError(m.clone()) },
            },
            ExecutionTurn::Failed(EngineError::TransactionError(m)),
        ),
        (phase2, event2) => {
            proof {
                assert(false);
            }
            vstd::pervasive::unreached()
        },
    }
}

} // verus!
