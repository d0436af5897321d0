use vstd::prelude::*;

use crate::payment::{is_evm, spec_is_evm};

verus! {

/// A swap request carried by a pipeline step: token pair, amount as a decimal
/// string, and the CAIP-2 identifiers of the source and destination chains.
#[derive(Debug, Clone)]
pub struct SwapOrder {
    pub input_token: String,
    pub output_token: String,
    pub amount: String,
    pub from_chain_caip2: String,
    pub to_chain_caip2: String,
}

impl SwapOrder {
    /// An equal copy, field by field.
    pub fn duplicate(&self) -> (r: SwapOrder)
        ensures
            r == *self,
    {
        SwapOrder {
            input_token: self.input_token.clone(),
            output_token: self.output_token.clone(),
            amount: self.amount.clone(),
            from_chain_caip2: self.from_chain_caip2.clone(),
            to_chain_caip2: self.to_chain_caip2.clone(),
        }
    }

    /// The submission path is chosen by the source chain's address-space
    /// family.
    pub fn is_evm(&self) -> (r: bool)
        ensures
            r == spec_is_evm(self.from_chain_caip2@),
    {
        is_evm(self.from_chain_caip2.as_str())
    }
}

/// An unsigned EVM call as the bridge returns it: the destination (spender)
/// address the engine reads, and the encoded remainder it passes through.
#[derive(Debug, Clone)]
pub struct EvmTransaction {
    pub to: String,
    pub payload: String,
}

impl EvmTransaction {
    /// An equal copy, field by field.
    pub fn duplicate(&self) -> (r: EvmTransaction)
        ensures
            r == *self,
    {
        EvmTransaction { to: self.to.clone(), payload: self.payload.clone() }
    }
}

/// An unsigned swap transaction, chain-specific: a structured EVM call or an
/// encoded Solana transaction.
#[derive(Debug, Clone)]
pub enum SwapOrderTransaction {
    Evm(EvmTransaction),
    Solana(String),
}

} // verus!
