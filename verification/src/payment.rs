use vstd::prelude::*;

use crate::order::EvmTransaction;
use crate::strings::{spec_starts_with, starts_with_str, str_eq};

verus! {

/// A cross-chain payment request: token pair, amount as a decimal string, and
/// the CAIP-2 identifiers of the source and destination chains.
#[derive(Debug, Clone)]
pub struct PaymentOrder {
    pub input_token: String,
    pub output_token: String,
    pub amount: String,
    pub from_chain_caip2: String,
    pub to_chain_caip2: String,
}

#[derive(Debug)]
pub enum PaymentOrderError {
    InvalidCaip2,
    LiFiError(String),
    NoTransactionRequest,
    SerializeError(String),
}

/// An unsigned payment transaction, chain-specific: a structured EVM call or
/// an encoded Solana transaction.
pub enum PaymentOrderTransaction {
    Evm(EvmTransaction),
    Solana(String),
}

/// A CAIP-2 identifier in the Solana address-space family.
pub open spec fn spec_is_solana(s: Seq<char>) -> bool {
    spec_starts_with(s, "solana:"@)
}

/// A CAIP-2 identifier in the EVM address-space family.
pub open spec fn spec_is_evm(s: Seq<char>) -> bool {
    spec_starts_with(s, "eip155:"@)
}

pub fn is_solana(caip2: &str) -> (r: bool)
    ensures
        r == spec_is_solana(caip2@),
{
    starts_with_str(caip2, "solana:")
}

pub fn is_evm(caip2: &str) -> (r: bool)
    ensures
        r == spec_is_evm(caip2@),
{
    starts_with_str(caip2, "eip155:")
}

impl PaymentOrder {
    /// An equal copy, field by field.
    pub fn duplicate(&self) -> (r: PaymentOrder)
        ensures
            r == *self,
    {
        PaymentOrder {
            input_token: self.input_token.clone(),
            output_token: self.output_token.clone(),
            amount: self.amount.clone(),
            from_chain_caip2: self.from_chain_caip2.clone(),
            to_chain_caip2: self.to_chain_caip2.clone(),
        }
    }

    pub fn is_evm(&self) -> (r: bool)
        ensures
            r == spec_is_evm(self.from_chain_caip2@),
    {
        is_evm(self.from_chain_caip2.as_str())
    }
}

/// The bridge's chain number for each supported CAIP-2 identifier; the Solana
/// main network has a reserved number of its own, every other entry is an EVM
/// chain whose number equals the reference in its identifier.
pub open spec fn spec_caip2_to_chain_id(s: Seq<char>) -> Option<u64> {
    if s == "solana:5eykt4UsFv8P8NJdTREpY1vzqKqZKvdp"@ {
        Some(1151111081099710u64)
    } else if s == "eip155:1"@ {
        Some(1u64)
    } else if s == "eip155:56"@ {
        Some(56u64)
    } else if s == "eip155:42161"@ {
        Some(42161u64)
    } else if s == "eip155:8453"@ {
        Some(8453u64)
    } else if s == "eip155:81457"@ {
        Some(81457u64)
    } else if s == "eip155:43114"@ {
        Some(43114u64)
    } else if s == "eip155:137"@ {
        Some(137u64)
    } else if s == "eip155:534352"@ {
        Some(534352u64)
    } else if s == "eip155:10"@ {
        Some(10u64)
    } else if s == "eip155:59144"@ {
        Some(59144u64)
    } else if s == "eip155:100"@ {
        Some(100u64)
    } else if s == "eip155:250"@ {
        Some(250u64)
    } else if s == "eip155:1285"@ {
        Some(1285u64)
    } else if s == "eip155:1284"@ {
        Some(1284u64)
    } else if s == "eip155:288"@ {
        Some(288u64)
    } else if s == "eip155:34443"@ {
        Some(34443u64)
    } else if s == "eip155:1088"@ {
        Some(1088u64)
    } else if s == "eip155:1135"@ {
        Some(1135u64)
    } else if s == "eip155:1313161554"@ {
        Some(1313161554u64)
    } else if s == "eip155:1329"@ {
        Some(1329u64)
    } else if s == "eip155:13371"@ {
        Some(13371u64)
    } else if s == "eip155:1625"@ {
        Some(1625u64)
    } else if s == "eip155:167000"@ {
        Some(167000u64)
    } else if s == "eip155:25"@ {
        Some(25u64)
    } else if s == "eip155:252"@ {
        Some(252u64)
    } else if s == "eip155:2741"@ {
        Some(2741u64)
    } else if s == "eip155:42220"@ {
        Some(42220u64)
    } else if s == "eip155:480"@ {
        Some(480u64)
    } else if s == "eip155:5000"@ {
        Some(5000u64)
    } else if s == "eip155:80094"@ {
        Some(80094u64)
    } else {
        None
    }
}

/// Resolves a CAIP-2 identifier to the bridge's chain number; `None` for an
/// unrecognized chain.
pub fn caip2_to_chain_id(caip2: &str) -> (r: Option<u64>)
    ensures
        r == spec_caip2_to_chain_id(caip2@),
{
    if str_eq(caip2, "solana:5eykt4UsFv8P8NJdTREpY1vzqKqZKvdp") {
        Some(1151111081099710)
    } else if str_eq(caip2, "eip155:1") {
        Some(1)
    } else if str_eq(caip2, "eip155:56") {
        Some(56)
    } else if str_eq(caip2, "eip155:42161") {
        Some(42161)
    } else if str_eq(caip2, "eip155:8453") {
        Some(8453)
    } else if str_eq(caip2, "eip155:81457") {
        Some(81457)
    } else if str_eq(caip2, "eip155:43114") {
        Some(43114)
    } else if str_eq(caip2, "eip155:137") {
        Some(137)
    } else if str_eq(caip2, "eip155:534352") {
        Some(534352)
    } else if str_eq(caip2, "eip155:10") {
        Some(10)
    } else if str_eq(caip2, "eip155:59144") {
        Some(59144)
    } else if str_eq(caip2, "eip155:100") {
        Some(100)
    } else if str_eq(caip2, "eip155:250") {
        Some(250)
    } else if str_eq(caip2, "eip155:1285") {
        Some(1285)
    } else if str_eq(caip2, "eip155:1284") {
        Some(1284)
    } else if str_eq(caip2, "eip155:288") {
        Some(288)
    } else if str_eq(caip2, "eip155:34443") {
        Some(34443)
    } else if str_eq(caip2, "eip155:1088") {
        Some(1088)
    } else if str_eq(caip2, "eip155:1135") {
        Some(1135)
    } else if str_eq(caip2, "eip155:1313161554") {
        Some(1313161554)
    } else if str_eq(caip2, "eip155:1329") {
        Some(1329)
    } else if str_eq(caip2, "eip155:13371") {
        Some(13371)
    } else if str_eq(caip2, "eip155:1625") {
        Some(1625)
    } else if str_eq(caip2, "eip155:167000") {
        Some(167000)
    } else if str_eq(caip2, "eip155:25") {
        Some(25)
    } else if str_eq(caip2, "eip155:252") {
        Some(252)
    } else if str_eq(caip2, "eip155:2741") {
        Some(2741)
    } else if str_eq(caip2, "eip155:42220") {
        Some(42220)
    } else if str_eq(caip2, "eip155:480") {
        Some(480)
    } else if str_eq(caip2, "eip155:5000") {
        Some(5000)
    } else if str_eq(caip2, "eip155:80094") {
        Some(80094)
    } else {
        None
    }
}

} // verus!
