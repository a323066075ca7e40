//! Plain models of the values the chain client reports.

use vstd::prelude::*;

verus! {

/// A 20-byte account identifier.
#[derive(Clone, Copy, Debug, PartialEq, Eq)]
pub struct Address {
    pub bytes: [u8; 20],
}

/// A 32-byte block or transaction hash.
#[derive(Clone, Copy, Debug, PartialEq, Eq)]
pub struct Hash256 {
    pub bytes: [u8; 32],
}

/// A transaction as resolved from its hash.
#[derive(Debug)]
pub struct Transaction {
    pub sender: Address,
    /// Absent exactly when the transaction deploys new contract code.
    pub recipient: Option<Address>,
    pub hash: Hash256,
    pub payload: Vec<u8>,
}

/// The receipt of a mined transaction, reduced to the fields the pipeline
/// reads: the address of the contract the transaction created, if any, and
/// the hash of the block the transaction landed in.
#[derive(Clone, Copy, Debug)]
pub struct Receipt {
    pub contract_address: Option<Address>,
    pub block_hash: Hash256,
}

} // verus!
