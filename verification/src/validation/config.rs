//! Validation configuration constants.

use vstd::prelude::*;

verus! {

pub const MIN_AMOUNT: i128 = 1;
/// Half of `i128::MAX`, to leave room for additions.
pub const MAX_AMOUNT: i128 = 85070591730234615865843651857942052863;
pub const MIN_SIGNERS: u32 = 1;
pub const MAX_SIGNERS: u32 = 100;
pub const MIN_THRESHOLD: u32 = 1;
pub const MAX_STRING_LENGTH: u32 = 256;
pub const MIN_CHAIN_ID: u32 = 1;
pub const MAX_CHAIN_ID: u32 = 999999;
pub const MAX_ESCROW_DESCRIPTION_LENGTH: u32 = 1000;
/// One minute.
pub const MIN_TIMEOUT_SECONDS: u64 = 60;
/// Ten years.
pub const MAX_TIMEOUT_SECONDS: u64 = 31536000 * 10;
/// Largest packet payload, 4 KB.
pub const MAX_PAYLOAD_SIZE: u32 = 4096;
/// Bridge-specific amount bounds.
pub const MIN_BRIDGE_AMOUNT: i128 = 1;
pub const MAX_BRIDGE_AMOUNT: i128 = 1_000_000_000_000_000_000;
/// Rewards-specific amount bounds.
pub const MIN_REWARD_AMOUNT: i128 = 1;
pub const MAX_REWARD_AMOUNT: i128 = 170141183460469231731687303715884105727;
pub const MAX_REWARD_RATE: i128 = 170141183460469231731687303715884105;

} // verus!
