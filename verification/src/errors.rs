use vstd::prelude::*;

verus! {

/// Errors reported by the rewards module.
#[derive(Clone, Copy, Debug, PartialEq, Eq, Structural)]
pub enum RewardsError {
    AlreadyInitialized,
    AmountMustBePositive,
    AmountExceedsMaxLimit,
    ArithmeticOverflow,
    InsufficientRewardPoolBalance,
    NoRewardsAvailable,
    NoPendingRewards,
    RateCannotBeNegative,
    ReentrancyDetected,
    InvalidInput,
}

} // verus!
