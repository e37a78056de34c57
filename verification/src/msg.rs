//! What goes into the pool's operations and what comes out of them.

use crate::pool::Denom;
use crate::pool::TokenSelection;
use vstd::prelude::*;

verus! {

/// The two assets that a new pool is to hold.
#[derive(Debug, Clone, PartialEq, Eq)]
pub struct InstantiateMsg {
    pub token1_denom: Denom,
    pub token2_denom: Denom,
}

/// A request to the pool.
#[derive(Debug, Clone, PartialEq, Eq)]
pub enum ExecuteMsg {
    /// Deposit both assets, in the ratio of the reserves.
    ProvideLiquidity { token1_amount: u128, token2_amount: u128 },
    /// Pay `input_amount` of the selected asset in and take the other asset
    /// out, at least `min_output` of it.
    Swap { token: TokenSelection, input_amount: u128, min_output: u128 },
}

/// A movement of assets that the pool asks its host to carry out. The pool
/// does not wait for it.
#[derive(Debug, Clone, PartialEq, Eq)]
pub enum Instruction {
    /// Move `amount` of the token kept by the contract `token` from `owner`
    /// to `recipient`.
    TransferFrom { token: String, owner: String, recipient: String, amount: u128 },
    /// Pay `amount` of the asset `denom` out of the pool to `recipient`.
    Send { denom: Denom, recipient: String, amount: u128 },
}

/// One entry of the audit record: a key and an amount.
#[derive(Debug, Clone, PartialEq, Eq)]
pub struct Attribute {
    pub key: String,
    pub value: u128,
}

impl Attribute {
    /// The entry reads `key` and `value`.
    pub open spec fn reads(self, key: Seq<char>, value: u128) -> bool {
        self.key@ == key && self.value == value
    }
}

/// What a successful operation hands back: the instructions for the host, in
/// order, and the audit record.
#[derive(Debug, Clone, PartialEq, Eq)]
pub struct Response {
    pub messages: Vec<Instruction>,
    pub attributes: Vec<Attribute>,
}

} // verus!
