//! Ethereum-side wire shapes: transactions and blocks as
//! `eth_getBlockByNumber(.., true)` reports them.
//!
//! Values are integer wei. A recipient address is carried as bare hex
//! without the `0x` prefix, as the node's hex rendering gives it; the
//! candidate form the payment table uses adds the prefix.

use vstd::prelude::*;

use crate::hash::H256;

verus! {

/// A decoded Ethereum transaction. `to_address` is absent for contract
/// creation.
pub struct Transaction {
    pub hash: H256,
    /// Recipient address as bare lower-case hex, without `0x`.
    pub to_address: Option<String>,
    /// Transferred value in wei.
    pub value: u128,
}

/// An Ethereum block with its transaction bodies.
pub struct Block {
    pub hash: H256,
    pub number: u64,
    pub transactions: Vec<Transaction>,
}

} // verus!
