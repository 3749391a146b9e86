//! Shared data types: addresses, transaction identifiers, user operations,
//! control modes and error taxonomy.

use vstd::prelude::*;

verus! {

/// An account or contract address, modelled as a plain integer value.
#[derive(Clone, Copy, PartialEq, Eq, Structural, Debug, Hash)]
pub struct Address {
    pub value: u128,
}

/// Identifier of a submitted bundle transaction.
#[derive(Clone, Copy, PartialEq, Eq, Structural, Debug, Hash)]
pub struct TxHash {
    pub value: u128,
}

/// Receipt observed once a bundle transaction has been mined.
#[derive(Clone, Copy, PartialEq, Eq, Structural, Debug)]
pub struct Receipt {
    pub tx_hash: TxHash,
    pub block_number: u64,
}

/// A pseudo-transaction submitted by an account-abstraction wallet.
///
/// Invariant enforced at admission time (not by construction): exactly one of
/// "the sender is a deployed contract" and "`init_code` is non-empty" holds.
#[derive(Clone, Debug)]
pub struct UserOperation {
    pub sender: Address,
    pub nonce: u64,
    pub init_code: Vec<u8>,
    pub call_data: Vec<u8>,
    pub max_fee_per_gas: u64,
    pub max_priority_fee_per_gas: u64,
    pub signature: Vec<u8>,
}

/// Control-surface bundling mode: `Manual` stops the periodic loops,
/// `Auto` starts them.
#[derive(Clone, Copy, PartialEq, Eq, Structural, Debug)]
pub enum Mode {
    Manual,
    Auto,
}

/// Failure of a sanity-pipeline rule.
///
/// `Provider` marks an upstream query failure, `Sender` a semantic violation
/// of the sender/replacement rule; callers apply different retry and
/// reporting policy to the two.
#[derive(Debug)]
pub enum SanityError {
    Provider { inner: String },
    Sender { inner: String },
}

/// Fatal startup misconfiguration: the service refuses to run rather than
/// operate with zero bundlers.
#[derive(Clone, Copy, PartialEq, Eq, Structural, Debug)]
pub enum ConfigError {
    ZeroBundlers,
}

impl SanityError {
    /// Diagnostic text carried by the error.
    pub fn message(&self) -> (r: &str)
        ensures
            match self {
                SanityError::Provider { inner } => r@ == inner@,
                SanityError::Sender { inner } => r@ == inner@,
            },
    {
        match self {
            SanityError::Provider { inner } => inner.as_str(),
            SanityError::Sender { inner } => inner.as_str(),
        }
    }
}

} // verus!
