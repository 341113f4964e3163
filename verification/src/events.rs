//! What the rewards operations publish and transfer.

use vstd::prelude::*;

use crate::address::Address;

verus! {

/// Event emitted when reward pool is funded
#[derive(Debug, PartialEq, Eq)]
pub struct RewardPoolFundedEvent {
    pub funder: Address,
    pub amount: i128,
    pub timestamp: u64,
}

/// Event emitted when rewards are issued to a user
#[derive(Debug, PartialEq, Eq)]
pub struct RewardIssuedEvent {
    pub recipient: Address,
    pub amount: i128,
    pub reward_type: Vec<u8>,
    pub timestamp: u64,
}

/// Event emitted when rewards are claimed by a user
#[derive(Debug, PartialEq, Eq)]
pub struct RewardClaimedEvent {
    pub user: Address,
    pub amount: i128,
    pub timestamp: u64,
}

/// Which way a token transfer goes between an account and the contract's pool.
#[derive(Clone, Copy, Debug, PartialEq, Eq, Structural)]
pub enum TransferDirection {
    /// From the account to the contract.
    IntoPool,
    /// From the contract to the account.
    OutOfPool,
}

/// A transfer of `amount` of `token` between `account` and the contract,
/// which the caller performs through the token contract.
#[derive(Debug, PartialEq, Eq)]
pub struct TokenTransfer {
    pub token: Address,
    pub account: Address,
    pub amount: i128,
    pub direction: TransferDirection,
}

} // verus!
