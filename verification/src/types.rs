//! Records kept by the contract.
//!
//! Text fields hold the bytes of the text; addresses are `Address`.

use vstd::prelude::*;

use crate::address::{bytes_equal, copy_bytes, Address};
use crate::keyed::Keyed;

verus! {

/// Reward rate configuration for different reward types
#[derive(Debug, PartialEq, Eq)]
pub struct RewardRate {
    pub reward_type: Vec<u8>,
    pub rate: i128,
    pub enabled: bool,
}

/// What a `RewardRate` holds.
pub struct RewardRateView {
    pub reward_type: Seq<u8>,
    pub rate: i128,
    pub enabled: bool,
}

impl View for RewardRate {
    type V = RewardRateView;

    open spec fn view(&self) -> RewardRateView {
        RewardRateView { reward_type: self.reward_type@, rate: self.rate, enabled: self.enabled }
    }
}

impl Keyed for RewardRate {
    open spec fn key_of(&self) -> Seq<u8> {
        self.reward_type@
    }

    fn has_key_bytes(&self, k: &Vec<u8>) -> (r: bool) {
        bytes_equal(&self.reward_type, k)
    }

    fn key_bytes(&self) -> (r: &Vec<u8>) {
        &self.reward_type
    }
}

impl RewardRate {
    /// A copy of this rate.
    pub fn duplicate(&self) -> (r: RewardRate)
        ensures
            r@ == self@,
    {
        RewardRate { reward_type: copy_bytes(&self.reward_type), rate: self.rate, enabled: self.enabled }
    }
}

impl Default for RewardRate {
    fn default() -> (r: RewardRate)
        ensures
            r@ == (RewardRateView { reward_type: Seq::empty(), rate: 0, enabled: false }),
    {
        RewardRate { reward_type: Vec::new(), rate: 0, enabled: false }
    }
}

/// User reward information
#[derive(Debug, PartialEq, Eq)]
pub struct UserReward {
    pub user: Address,
    pub total_earned: i128,
    pub claimed: i128,
    pub pending: i128,
    pub last_claim_timestamp: u64,
}

/// What a `UserReward` holds.
pub struct UserRewardView {
    pub user: Seq<u8>,
    pub total_earned: i128,
    pub claimed: i128,
    pub pending: i128,
    pub last_claim_timestamp: u64,
}

impl View for UserReward {
    type V = UserRewardView;

    open spec fn view(&self) -> UserRewardView {
        UserRewardView {
            user: self.user@,
            total_earned: self.total_earned,
            claimed: self.claimed,
            pending: self.pending,
            last_claim_timestamp: self.last_claim_timestamp,
        }
    }
}

impl Keyed for UserReward {
    open spec fn key_of(&self) -> Seq<u8> {
        self.user@
    }

    fn has_key_bytes(&self, k: &Vec<u8>) -> (r: bool) {
        bytes_equal(&self.user.strkey, k)
    }

    fn key_bytes(&self) -> (r: &Vec<u8>) {
        &self.user.strkey
    }
}

impl UserReward {
    /// A copy of this record.
    pub fn duplicate(&self) -> (r: UserReward)
        ensures
            r@ == self@,
    {
        UserReward {
            user: self.user.duplicate(),
            total_earned: self.total_earned,
            claimed: self.claimed,
            pending: self.pending,
            last_claim_timestamp: self.last_claim_timestamp,
        }
    }
}

impl Default for UserReward {
    fn default() -> (r: UserReward)
        ensures
            r@ == (UserRewardView {
                user: Seq::empty(),
                total_earned: 0,
                claimed: 0,
                pending: 0,
                last_claim_timestamp: 0,
            }),
    {
        UserReward {
            user: Address::default(),
            total_earned: 0,
            claimed: 0,
            pending: 0,
            last_claim_timestamp: 0,
        }
    }
}

/// Escrow signer information
#[derive(Debug, PartialEq, Eq)]
pub struct EscrowSigner {
    pub address: Address,
    pub weight: u32,
}

/// Escrow parameters for creating escrow contracts
#[derive(Debug, PartialEq, Eq)]
pub struct EscrowParameters {
    pub depositor: Address,
    pub beneficiary: Address,
    pub token: Address,
    pub amount: i128,
    pub signers: Vec<EscrowSigner>,
    pub threshold: u32,
    pub release_time: Option<u64>,
    pub refund_time: Option<u64>,
    pub arbitrator: Address,
    pub description: Vec<u8>,
}

/// Escrow contract state
#[derive(Debug, PartialEq, Eq)]
pub struct Escrow {
    pub id: u64,
    pub parameters: EscrowParameters,
    pub status: EscrowStatus,
    pub created_at: u64,
    pub approval_count: u32,
    pub approved_signers: Vec<Address>,
}

/// Escrow status enumeration
#[derive(Clone, Copy, Debug, PartialEq, Eq, Structural)]
pub enum EscrowStatus {
    Pending,
    Approved,
    Released,
    Refunded,
    Disputed,
    Resolved,
    Cancelled,
}

impl Default for EscrowStatus {
    fn default() -> (r: EscrowStatus)
        ensures
            r == EscrowStatus::Pending,
    {
        EscrowStatus::Pending
    }
}

/// Cross-chain message for bridge operations
#[derive(Debug, PartialEq, Eq)]
pub struct CrossChainMessage {
    pub message_id: u64,
    pub source_chain: u32,
    pub destination_chain: u32,
    pub amount: i128,
    pub recipient: Address,
    pub sender: Address,
    pub token: Address,
    pub nonce: u64,
    pub timestamp: u64,
    pub fee: i128,
}

/// Bridge transaction information
#[derive(Debug, PartialEq, Eq)]
pub struct BridgeTransaction {
    pub transaction_id: u64,
    pub message: CrossChainMessage,
    pub status: BridgeTransactionStatus,
    pub created_at: u64,
    pub completed_at: Option<u64>,
    pub validator_signatures: Vec<Address>,
}

/// Bridge transaction status
#[derive(Clone, Copy, Debug, PartialEq, Eq, Structural)]
pub enum BridgeTransactionStatus {
    Pending,
    Validated,
    Completed,
    Failed,
    Timeout,
}

impl Default for BridgeTransactionStatus {
    fn default() -> (r: BridgeTransactionStatus)
        ensures
            r == BridgeTransactionStatus::Pending,
    {
        BridgeTransactionStatus::Pending
    }
}

/// Validator information for bridge consensus
#[derive(Debug, PartialEq, Eq)]
pub struct Validator {
    pub address: Address,
    pub stake: i128,
    pub is_active: bool,
    pub voting_power: u32,
}

/// Bridge configuration
#[derive(Debug, PartialEq, Eq)]
pub struct BridgeConfig {
    pub min_validators: u32,
    pub timeout_seconds: u64,
    pub fee_rate: i128,
    pub max_transaction_amount: i128,
    pub supported_chains: Vec<u32>,
}

/// Liquidity pool information
#[derive(Debug, PartialEq, Eq)]
pub struct LiquidityPool {
    pub token_a: Address,
    pub token_b: Address,
    pub reserve_a: i128,
    pub reserve_b: i128,
    pub total_supply: i128,
    pub fee_rate: i128,
}

/// Atomic swap information
#[derive(Debug, PartialEq, Eq)]
pub struct AtomicSwap {
    pub swap_id: u64,
    pub initiator: Address,
    pub participant: Address,
    pub token_a: Address,
    pub token_b: Address,
    pub amount_a: i128,
    pub amount_b: i128,
    pub hashlock: Vec<u8>,
    pub timelock: u64,
    pub status: SwapStatus,
    pub created_at: u64,
}

/// Atomic swap status
#[derive(Clone, Copy, Debug, PartialEq, Eq, Structural)]
pub enum SwapStatus {
    Pending,
    Completed,
    Refunded,
    Expired,
}

impl Default for SwapStatus {
    fn default() -> (r: SwapStatus)
        ensures
            r == SwapStatus::Pending,
    {
        SwapStatus::Pending
    }
}

/// Mobile platform device information
#[derive(Debug, PartialEq, Eq)]
pub struct DeviceInfo {
    pub device_id: Vec<u8>,
    pub platform: Vec<u8>,
    pub version: Vec<u8>,
    pub is_active: bool,
    pub last_sync: u64,
}

/// Mobile app configuration
#[derive(Debug, PartialEq, Eq)]
pub struct MobileConfig {
    pub min_version: Vec<u8>,
    pub current_version: Vec<u8>,
    pub features: Vec<Vec<u8>>,
    pub maintenance_mode: bool,
}

} // verus!
