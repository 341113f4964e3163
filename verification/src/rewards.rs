//! The rewards system: funding the pool, issuing rewards, claiming them,
//! and their administration.
//!
//! Each operation takes the rewards storage and says exactly how it
//! changes; a refused operation leaves the storage as it was. Where an
//! operation moves tokens, it returns the transfer for the caller to
//! perform and leaves the reentrancy guard held until the caller reports
//! the transfer done with `Rewards::finish_transfer`.

use vstd::prelude::*;

use crate::address::Address;
use crate::errors::RewardsError;
use crate::events::{
    RewardClaimedEvent, RewardIssuedEvent, RewardPoolFundedEvent, TokenTransfer, TransferDirection,
};
use crate::keyed::{
    find_key, lemma_entries_lookup, lemma_entries_push, lemma_entries_update,
    lemma_sum_push, lemma_sum_update,
};
use crate::reentrancy::ReentrancyGuard;
use crate::storage::{
    earned_amounts, lemma_outstanding_bounds, outstanding_rewards, pending_amounts,
    record_consistent, RewardsState,
};
use crate::types::{RewardRate, RewardRateView, UserReward, UserRewardView};
use crate::validation::{pool_funding_valid, reward_issuance_valid, RewardsValidator};

verus! {

/// Largest amount accepted for funding, issuing and reward calculation:
/// half of the `i128` range, so that doubling it overflows.
pub const MAX_REWARD_AMOUNT: i128 = 85070591730234615865843651857942052864;

/// Largest reward rate: `MAX_REWARD_AMOUNT / 1000`.
pub const MAX_REWARD_RATE: i128 = 85070591730234615865843651857942052;

/// The rewards module.
pub struct Rewards;

// ---------------------------------------------------------------------
// What the operations accept and do
// ---------------------------------------------------------------------

/// The record of a user who has none yet.
pub open spec fn fresh_record(user: Seq<u8>) -> UserRewardView {
    UserRewardView { user, total_earned: 0, claimed: 0, pending: 0, last_claim_timestamp: 0 }
}

/// The user's record, or a fresh one.
pub open spec fn record_or_fresh(s: RewardsState, user: Seq<u8>) -> UserRewardView {
    if s.users().contains_key(user) {
        s.users()[user]
    } else {
        fresh_record(user)
    }
}

/// The record after `amount` more is earned and pending.
pub open spec fn credited(u: UserRewardView, amount: i128) -> UserRewardView {
    UserRewardView {
        total_earned: (u.total_earned + amount) as i128,
        pending: (u.pending + amount) as i128,
        ..u
    }
}

/// The record after its pending amount is claimed at time `now`.
pub open spec fn settled(u: UserRewardView, now: u64) -> UserRewardView {
    UserRewardView {
        claimed: (u.claimed + u.pending) as i128,
        pending: 0,
        last_claim_timestamp: now,
        ..u
    }
}

/// Whether a funding request gets as far as reading the reward token.
pub open spec fn funding_reaches_token(s: RewardsState, funder: Seq<u8>, amount: i128) -> bool {
    &&& !s.guard
    &&& pool_funding_valid(s.blacklist@, funder, amount)
    &&& amount <= MAX_REWARD_AMOUNT
}

/// Why `fund_reward_pool` refuses, if it does.
pub open spec fn funding_error(s: RewardsState, funder: Seq<u8>, amount: i128) -> Option<RewardsError> {
    if s.guard {
        Some(RewardsError::ReentrancyDetected)
    } else if !pool_funding_valid(s.blacklist@, funder, amount) {
        Some(RewardsError::AmountMustBePositive)
    } else if amount > MAX_REWARD_AMOUNT {
        Some(RewardsError::AmountExceedsMaxLimit)
    } else if s.pool_balance + amount > i128::MAX {
        Some(RewardsError::ArithmeticOverflow)
    } else {
        None
    }
}

/// Why `issue_reward` refuses, if it does.
pub open spec fn issuance_error(
    s: RewardsState,
    recipient: Seq<u8>,
    amount: i128,
    reward_type: Seq<u8>,
) -> Option<RewardsError> {
    let u = record_or_fresh(s, recipient);
    if !reward_issuance_valid(s.blacklist@, recipient, amount, reward_type) {
        Some(RewardsError::AmountMustBePositive)
    } else if amount > MAX_REWARD_AMOUNT {
        Some(RewardsError::AmountExceedsMaxLimit)
    } else if s.pool_balance - s.outstanding() < amount {
        Some(RewardsError::InsufficientRewardPoolBalance)
    } else if u.total_earned + amount > i128::MAX || u.pending + amount > i128::MAX
        || s.total_issued + amount > i128::MAX {
        Some(RewardsError::ArithmeticOverflow)
    } else {
        None
    }
}

/// Why `claim_rewards` refuses, if it does.
pub open spec fn claim_error(s: RewardsState, user: Seq<u8>) -> Option<RewardsError> {
    if s.guard {
        Some(RewardsError::ReentrancyDetected)
    } else if !s.users().contains_key(user) {
        Some(RewardsError::NoRewardsAvailable)
    } else if s.users()[user].pending <= 0 {
        Some(RewardsError::NoPendingRewards)
    } else if s.pool_balance < s.users()[user].pending {
        Some(RewardsError::InsufficientRewardPoolBalance)
    } else if s.users()[user].claimed + s.users()[user].pending > i128::MAX {
        Some(RewardsError::ArithmeticOverflow)
    } else {
        None
    }
}

/// Why `set_reward_rate` refuses, if it does.
pub open spec fn rate_error(rate: i128) -> Option<RewardsError> {
    if rate < 0 {
        Some(RewardsError::RateCannotBeNegative)
    } else if rate > MAX_REWARD_RATE {
        Some(RewardsError::AmountExceedsMaxLimit)
    } else {
        None
    }
}

/// What `calculate_reward_amount` returns.
pub open spec fn reward_amount(base_amount: i128, rate: i128) -> Result<i128, RewardsError> {
    if base_amount < 0 || rate < 0 {
        Err(RewardsError::AmountMustBePositive)
    } else if base_amount > MAX_REWARD_AMOUNT || rate > MAX_REWARD_RATE {
        Err(RewardsError::AmountExceedsMaxLimit)
    } else {
        product(base_amount, rate)
    }
}

/// The product, or `ArithmeticOverflow` when it leaves the `i128` range.
pub open spec fn product(a: i128, b: i128) -> Result<i128, RewardsError> {
    if a * b > i128::MAX || a * b < i128::MIN {
        Err(RewardsError::ArithmeticOverflow)
    } else {
        Ok((a * b) as i128)
    }
}

/// Integer quotient rounded toward zero.
pub open spec fn quotient(a: int, b: int) -> int {
    let q = (if a < 0 { -a } else { a }) / (if b < 0 { -b } else { b });
    if (a < 0) == (b < 0) {
        q
    } else {
        -q
    }
}

/// `s2` is `s1` after a funding of `amount`, with the guard held for the transfer.
pub open spec fn funded(s1: RewardsState, s2: RewardsState, amount: i128) -> bool {
    s2 == (RewardsState { pool_balance: (s1.pool_balance + amount) as i128, guard: true, ..s1 })
}

/// `s2` is `s1` after `amount` was issued to `recipient`.
pub open spec fn issued(s1: RewardsState, s2: RewardsState, recipient: Seq<u8>, amount: i128) -> bool {
    &&& s2.users() == s1.users().insert(recipient, credited(record_or_fresh(s1, recipient), amount))
    &&& s2.total_issued == s1.total_issued + amount
    &&& s2.token == s1.token
    &&& s2.admin == s1.admin
    &&& s2.pool_balance == s1.pool_balance
    &&& s2.reward_rates == s1.reward_rates
    &&& s2.guard == s1.guard
    &&& s2.blacklist == s1.blacklist
}

/// `s2` is `s1` after `user` claimed their pending rewards at time `now`,
/// with the guard held for the transfer.
pub open spec fn claimed(s1: RewardsState, s2: RewardsState, user: Seq<u8>, now: u64) -> bool {
    &&& s2.users() == s1.users().insert(user, settled(s1.users()[user], now))
    &&& s2.pool_balance == s1.pool_balance - s1.users()[user].pending
    &&& s2.guard
    &&& s2.total_issued == s1.total_issued
    &&& s2.token == s1.token
    &&& s2.admin == s1.admin
    &&& s2.reward_rates == s1.reward_rates
    &&& s2.blacklist == s1.blacklist
}

/// `s2` is `s1` with the rate of `reward_type` set.
pub open spec fn rate_set(
    s1: RewardsState,
    s2: RewardsState,
    reward_type: Seq<u8>,
    rate: i128,
    enabled: bool,
) -> bool {
    &&& s2.rates() == s1.rates().insert(reward_type, RewardRateView { reward_type, rate, enabled })
    &&& s2.token == s1.token
    &&& s2.admin == s1.admin
    &&& s2.pool_balance == s1.pool_balance
    &&& s2.total_issued == s1.total_issued
    &&& s2.user_rewards == s1.user_rewards
    &&& s2.guard == s1.guard
    &&& s2.blacklist == s1.blacklist
}

/// A transfer as plain values.
pub open spec fn transfer_is(
    t: TokenTransfer,
    token: Seq<u8>,
    account: Seq<u8>,
    amount: i128,
    direction: TransferDirection,
) -> bool {
    &&& t.token@ == token
    &&& t.account@ == account
    &&& t.amount == amount
    &&& t.direction == direction
}

/// Replacing a record changes the pending and earned sums by the differences.
proof fn lemma_record_replaced(s: Seq<UserReward>, i: int, e: UserReward)
    requires
        0 <= i < s.len(),
    ensures
        crate::keyed::sum(pending_amounts(s.update(i, e))) == crate::keyed::sum(pending_amounts(s))
            - s[i].pending + e.pending,
        crate::keyed::sum(earned_amounts(s.update(i, e))) == crate::keyed::sum(earned_amounts(s))
            - s[i].total_earned + e.total_earned,
{
    assert(pending_amounts(s.update(i, e)) =~= pending_amounts(s).update(i, e.pending as int));
    assert(earned_amounts(s.update(i, e)) =~= earned_amounts(s).update(i, e.total_earned as int));
    lemma_sum_update(pending_amounts(s), i, e.pending as int);
    lemma_sum_update(earned_amounts(s), i, e.total_earned as int);
}

/// Appending a record adds its pending and earned amounts to the sums.
proof fn lemma_record_added(s: Seq<UserReward>, e: UserReward)
    ensures
        crate::keyed::sum(pending_amounts(s.push(e))) == crate::keyed::sum(pending_amounts(s))
            + e.pending,
        crate::keyed::sum(earned_amounts(s.push(e))) == crate::keyed::sum(earned_amounts(s))
            + e.total_earned,
{
    assert(pending_amounts(s.push(e)) =~= pending_amounts(s).push(e.pending as int));
    assert(earned_amounts(s.push(e)) =~= earned_amounts(s).push(e.total_earned as int));
    lemma_sum_push(pending_amounts(s), e.pending as int);
    lemma_sum_push(earned_amounts(s), e.total_earned as int);
}

impl Rewards {
    /// Initialize the rewards system
    pub fn initialize_rewards(
        state: &mut RewardsState,
        token: Address,
        rewards_admin: Address,
    ) -> (r: Result<(), RewardsError>)
        requires
            old(state).wf(),
        ensures
            final(state).wf(),
            old(state).initialized() ==> r == Err::<(), RewardsError>(
                RewardsError::AlreadyInitialized,
            ) && *final(state) == *old(state),
            !old(state).initialized() ==> {
                &&& r is Ok
                &&& final(state).token == Some(token)
                &&& final(state).admin == Some(rewards_admin)
                &&& final(state).pool_balance == 0
                &&& final(state).total_issued == 0
                &&& final(state).users() == Map::<Seq<u8>, UserRewardView>::empty()
                &&& final(state).rates() == Map::<Seq<u8>, RewardRateView>::empty()
                &&& final(state).guard == old(state).guard
                &&& final(state).blacklist == old(state).blacklist
            },
    {
        if state.admin.is_some() {
            return Err(RewardsError::AlreadyInitialized);
        }
        state.token = Some(token);
        state.admin = Some(rewards_admin);
        state.pool_balance = 0;
        state.total_issued = 0;
        state.reward_rates = Vec::new();
        state.user_rewards = Vec::new();
        proof {
            crate::keyed::lemma_entries_empty(state.user_rewards@);
            crate::keyed::lemma_entries_empty(state.reward_rates@);
            assert(pending_amounts(state.user_rewards@) =~= Seq::<int>::empty());
            assert(earned_amounts(state.user_rewards@) =~= Seq::<int>::empty());
        }
        Ok(())
    }

    /// The reentrancy guard is released after the token transfer of a
    /// funding or a claim was performed.
    pub fn finish_transfer(state: &mut RewardsState)
        requires
            old(state).wf(),
        ensures
            *final(state) == (RewardsState { guard: false, ..*old(state) }),
            final(state).wf(),
    {
        ReentrancyGuard::force_clear_guard(&mut state.guard);
    }

    // ==========================
    // Pool Management
    // ==========================

    /// Whether a funding request gets past the guard and the input checks,
    /// to where it reads the reward token, which only an initialized
    /// storage holds.
    pub fn funding_reaches_token(state: &RewardsState, funder: &Address, amount: i128) -> (r: bool)
        ensures
            r == funding_reaches_token(*state, funder@, amount),
    {
        !state.guard && RewardsValidator::validate_pool_funding(&state.blacklist, funder, amount).is_ok()
            && amount <= MAX_REWARD_AMOUNT
    }

    /// Adds `amount` to the reward pool. On success the caller transfers
    /// the tokens from the funder to the contract, publishes the event and
    /// then calls `finish_transfer`; until then the guard is held.
    pub fn fund_reward_pool(
        state: &mut RewardsState,
        funder: Address,
        amount: i128,
        now: u64,
    ) -> (r: Result<(TokenTransfer, RewardPoolFundedEvent), RewardsError>)
        requires
            old(state).wf(),
            funding_reaches_token(*old(state), funder@, amount) ==> old(state).initialized(),
        ensures
            final(state).wf(),
            match r {
                Ok((t, ev)) => {
                    &&& funding_error(*old(state), funder@, amount) is None
                    &&& funded(*old(state), *final(state), amount)
                    &&& transfer_is(
                        t,
                        old(state).token.unwrap()@,
                        funder@,
                        amount,
                        TransferDirection::IntoPool,
                    )
                    &&& ev.funder@ == funder@
                    &&& ev.amount == amount
                    &&& ev.timestamp == now
                },
                Err(e) => funding_error(*old(state), funder@, amount) == Some(e) && *final(state)
                    == *old(state),
            },
    {
        if ReentrancyGuard::is_guard_active(&state.guard) {
            return Err(RewardsError::ReentrancyDetected);
        }
        RewardsValidator::validate_pool_funding(&state.blacklist, &funder, amount)?;
        if amount > MAX_REWARD_AMOUNT {
            return Err(RewardsError::AmountExceedsMaxLimit);
        }
        let token = match &state.token {
            Some(t) => t.duplicate(),
            None => {
                return Err(RewardsError::ArithmeticOverflow);
            },
        };
        let pool_balance = match state.pool_balance.checked_add(amount) {
            Some(p) => p,
            None => {
                return Err(RewardsError::ArithmeticOverflow);
            },
        };
        state.pool_balance = pool_balance;
        state.guard = true;
        let transfer = TokenTransfer {
            token,
            account: funder.duplicate(),
            amount,
            direction: TransferDirection::IntoPool,
        };
        Ok((transfer, RewardPoolFundedEvent { funder, amount, timestamp: now }))
    }

    /// Issue rewards to a user: the recipient's earned and pending amounts
    /// and the issued total grow by `amount`. The pool must cover `amount`
    /// on top of every reward issued and not yet claimed.
    pub fn issue_reward(
        state: &mut RewardsState,
        recipient: Address,
        amount: i128,
        reward_type: Vec<u8>,
        now: u64,
    ) -> (r: Result<RewardIssuedEvent, RewardsError>)
        requires
            old(state).wf(),
            old(state).initialized(),
        ensures
            final(state).wf(),
            match r {
                Ok(ev) => {
                    &&& issuance_error(*old(state), recipient@, amount, reward_type@) is None
                    &&& issued(*old(state), *final(state), recipient@, amount)
                    &&& ev.recipient@ == recipient@
                    &&& ev.amount == amount
                    &&& ev.reward_type@ == reward_type@
                    &&& ev.timestamp == now
                },
                Err(e) => issuance_error(*old(state), recipient@, amount, reward_type@) == Some(e)
                    && *final(state) == *old(state),
            },
    {
        RewardsValidator::validate_reward_issuance(&state.blacklist, &recipient, amount, &reward_type)?;
        if amount > MAX_REWARD_AMOUNT {
            return Err(RewardsError::AmountExceedsMaxLimit);
        }
        let outstanding = outstanding_rewards(state);
        proof {
            lemma_outstanding_bounds(state);
        }
        if state.pool_balance - outstanding < amount {
            return Err(RewardsError::InsufficientRewardPoolBalance);
        }
        let idx = find_key(&state.user_rewards, &recipient.strkey);
        let ghost old_users = state.user_rewards@;
        let (earned, claimed, pending, last_claim) = match idx {
            Some(i) => {
                proof {
                    lemma_entries_lookup(old_users, i as int);
                }
                let u = &state.user_rewards[i];
                (u.total_earned, u.claimed, u.pending, u.last_claim_timestamp)
            },
            None => (0, 0, 0, 0),
        };
        let new_earned = match earned.checked_add(amount) {
            Some(v) => v,
            None => {
                return Err(RewardsError::ArithmeticOverflow);
            },
        };
        let new_pending = match pending.checked_add(amount) {
            Some(v) => v,
            None => {
                return Err(RewardsError::ArithmeticOverflow);
            },
        };
        let new_total = match state.total_issued.checked_add(amount) {
            Some(v) => v,
            None => {
                return Err(RewardsError::ArithmeticOverflow);
            },
        };
        let entry = UserReward {
            user: recipient.duplicate(),
            total_earned: new_earned,
            claimed,
            pending: new_pending,
            last_claim_timestamp: last_claim,
        };
        match idx {
            Some(i) => {
                proof {
                    lemma_entries_update(old_users, i as int, entry);
                    lemma_record_replaced(old_users, i as int, entry);
                    assert(record_consistent(old_users[i as int]@));
                }
                state.user_rewards.set(i, entry);
            },
            None => {
                proof {
                    lemma_entries_push(old_users, entry);
                    lemma_record_added(old_users, entry);
                }
                state.user_rewards.push(entry);
            },
        }
        state.total_issued = new_total;
        proof {
            let s = state.user_rewards@;
            assert forall|j: int| 0 <= j < s.len() implies record_consistent(#[trigger] s[j]@) by {
                if j < old_users.len() && (idx is None || j != idx.unwrap() as int) {
                    assert(s[j] == old_users[j]);
                }
            }
        }
        Ok(RewardIssuedEvent { recipient, amount, reward_type, timestamp: now })
    }

    // ==========================
    // Claiming
    // ==========================

    /// Pays out the user's pending rewards. On success the caller transfers
    /// the tokens from the contract to the user, publishes the event and
    /// then calls `finish_transfer`; until then the guard is held.
    pub fn claim_rewards(state: &mut RewardsState, user: Address, now: u64) -> (r: Result<
        (TokenTransfer, RewardClaimedEvent),
        RewardsError,
    >)
        requires
            old(state).wf(),
        ensures
            final(state).wf(),
            match r {
                Ok((t, ev)) => {
                    let paid = old(state).users()[user@].pending;
                    &&& claim_error(*old(state), user@) is None
                    &&& claimed(*old(state), *final(state), user@, now)
                    &&& transfer_is(
                        t,
                        old(state).token.unwrap()@,
                        user@,
                        paid,
                        TransferDirection::OutOfPool,
                    )
                    &&& ev.user@ == user@
                    &&& ev.amount == paid
                    &&& ev.timestamp == now
                },
                Err(e) => claim_error(*old(state), user@) == Some(e) && *final(state) == *old(
                    state,
                ),
            },
    {
        if ReentrancyGuard::is_guard_active(&state.guard) {
            return Err(RewardsError::ReentrancyDetected);
        }
        let ghost old_users = state.user_rewards@;
        let i = match find_key(&state.user_rewards, &user.strkey) {
            Some(i) => i,
            None => {
                return Err(RewardsError::NoRewardsAvailable);
            },
        };
        proof {
            lemma_entries_lookup(old_users, i as int);
            lemma_outstanding_bounds(state);
            assert(record_consistent(old_users[i as int]@));
        }
        let amount_to_claim = state.user_rewards[i].pending;
        if amount_to_claim <= 0 {
            return Err(RewardsError::NoPendingRewards);
        }
        let pool_balance = state.pool_balance;
        if pool_balance < amount_to_claim {
            return Err(RewardsError::InsufficientRewardPoolBalance);
        }
        let token = match &state.token {
            Some(t) => t.duplicate(),
            None => {
                return Err(RewardsError::ArithmeticOverflow);
            },
        };
        let claimed = match state.user_rewards[i].claimed.checked_add(amount_to_claim) {
            Some(v) => v,
            None => {
                return Err(RewardsError::ArithmeticOverflow);
            },
        };
        let new_pool_balance = match pool_balance.checked_sub(amount_to_claim) {
            Some(v) => v,
            None => {
                return Err(RewardsError::InsufficientRewardPoolBalance);
            },
        };
        let entry = UserReward {
            user: state.user_rewards[i].user.duplicate(),
            total_earned: state.user_rewards[i].total_earned,
            claimed,
            pending: 0,
            last_claim_timestamp: now,
        };
        proof {
            lemma_entries_update(old_users, i as int, entry);
            lemma_record_replaced(old_users, i as int, entry);
        }
        state.user_rewards.set(i, entry);
        state.pool_balance = new_pool_balance;
        state.guard = true;
        proof {
            let s = state.user_rewards@;
            assert forall|j: int| 0 <= j < s.len() implies record_consistent(#[trigger] s[j]@) by {
                if j != i as int {
                    assert(s[j] == old_users[j]);
                }
            }
        }
        let transfer = TokenTransfer {
            token,
            account: user.duplicate(),
            amount: amount_to_claim,
            direction: TransferDirection::OutOfPool,
        };
        Ok((transfer, RewardClaimedEvent { user, amount: amount_to_claim, timestamp: now }))
    }

    // ==========================
    // Admin Functions
    // ==========================

    /// Set reward rate for a specific reward type
    pub fn set_reward_rate(
        state: &mut RewardsState,
        reward_type: Vec<u8>,
        rate: i128,
        enabled: bool,
    ) -> (r: Result<(), RewardsError>)
        requires
            old(state).wf(),
            old(state).initialized(),
        ensures
            final(state).wf(),
            match r {
                Ok(_) => {
                    &&& rate_error(rate) is None
                    &&& rate_set(*old(state), *final(state), reward_type@, rate, enabled)
                },
                Err(e) => rate_error(rate) == Some(e) && *final(state) == *old(state),
            },
    {
        if rate < 0 {
            return Err(RewardsError::RateCannotBeNegative);
        }
        if rate > MAX_REWARD_RATE {
            return Err(RewardsError::AmountExceedsMaxLimit);
        }
        let idx = find_key(&state.reward_rates, &reward_type);
        let entry = RewardRate { reward_type, rate, enabled };
        match idx {
            Some(i) => {
                proof {
                    lemma_entries_update(state.reward_rates@, i as int, entry);
                }
                state.reward_rates.set(i, entry);
            },
            None => {
                proof {
                    lemma_entries_push(state.reward_rates@, entry);
                }
                state.reward_rates.push(entry);
            },
        }
        Ok(())
    }

    /// Hands the administration to `new_admin`.
    pub fn update_rewards_admin(state: &mut RewardsState, new_admin: Address)
        requires
            old(state).wf(),
            old(state).initialized(),
        ensures
            *final(state) == (RewardsState { admin: Some(new_admin), ..*old(state) }),
            final(state).wf(),
    {
        state.admin = Some(new_admin);
    }

    // ==========================
    // View Functions
    // ==========================

    /// The user's reward record, if there is one.
    pub fn get_user_rewards(state: &RewardsState, user: &Address) -> (r: Option<UserReward>)
        requires
            state.wf(),
        ensures
            match r {
                Some(u) => state.users().contains_key(user@) && u@ == state.users()[user@],
                None => !state.users().contains_key(user@),
            },
    {
        match find_key(&state.user_rewards, &user.strkey) {
            Some(i) => {
                proof {
                    lemma_entries_lookup(state.user_rewards@, i as int);
                }
                Some(state.user_rewards[i].duplicate())
            },
            None => None,
        }
    }

    /// Tokens held for rewards.
    pub fn get_reward_pool_balance(state: &RewardsState) -> (r: i128)
        ensures
            r == state.pool_balance,
    {
        state.pool_balance
    }

    /// Sum of all rewards ever issued.
    pub fn get_total_rewards_issued(state: &RewardsState) -> (r: i128)
        ensures
            r == state.total_issued,
    {
        state.total_issued
    }

    /// The rate of a reward type, if one was set.
    pub fn get_reward_rate(state: &RewardsState, reward_type: &Vec<u8>) -> (r: Option<RewardRate>)
        requires
            state.wf(),
        ensures
            match r {
                Some(x) => state.rates().contains_key(reward_type@) && x@ == state.rates()[reward_type@],
                None => !state.rates().contains_key(reward_type@),
            },
    {
        match find_key(&state.reward_rates, reward_type) {
            Some(i) => {
                proof {
                    lemma_entries_lookup(state.reward_rates@, i as int);
                }
                Some(state.reward_rates[i].duplicate())
            },
            None => None,
        }
    }

    /// The rewards administrator.
    pub fn get_rewards_admin(state: &RewardsState) -> (r: Address)
        requires
            state.initialized(),
        ensures
            r@ == state.admin.unwrap()@,
    {
        match &state.admin {
            Some(a) => a.duplicate(),
            None => Address::default(),
        }
    }

    // ==========================
    // Arithmetic with overflow protection
    // ==========================

    /// Safely multiply two i128 values with overflow protection
    pub fn safe_multiply(a: i128, b: i128) -> (r: Result<i128, RewardsError>)
        ensures
            r == product(a, b),
    {
        match a.checked_mul(b) {
            Some(p) => Ok(p),
            None => Err(RewardsError::ArithmeticOverflow),
        }
    }

    /// Safely divide two i128 values with division by zero protection;
    /// the quotient is rounded toward zero, and the one quotient outside
    /// the `i128` range (`i128::MIN / -1`) is an overflow.
    pub fn safe_divide(a: i128, b: i128) -> (r: Result<i128, RewardsError>)
        ensures
            b == 0 ==> r == Err::<i128, RewardsError>(RewardsError::InvalidInput),
            a == i128::MIN && b == -1 ==> r == Err::<i128, RewardsError>(
                RewardsError::ArithmeticOverflow,
            ),
            b != 0 && !(a == i128::MIN && b == -1) ==> r == Ok::<i128, RewardsError>(
                quotient(a as int, b as int) as i128,
            ),
    {
        if b == 0 {
            return Err(RewardsError::InvalidInput);
        }
        proof {
            let x: int = if a < 0 { -(a as int) } else { a as int };
            let d: int = if b < 0 { -(b as int) } else { b as int };
            assert(0 <= x / d <= x) by (nonlinear_arith)
                requires
                    x >= 0,
                    d >= 1,
            ;
            assert(d >= 2 ==> (x / d) * 2 <= x) by (nonlinear_arith)
                requires
                    x >= 0,
                    d >= 1,
            ;
            assert(d == 1 ==> x / d == x) by (nonlinear_arith)
                requires
                    x >= 0,
                    d >= 1,
            ;
        }
        match a.checked_div(b) {
            Some(q) => Ok(q),
            None => Err(RewardsError::ArithmeticOverflow),
        }
    }

    /// Calculate rewards based on rate and base amount with overflow protection
    pub fn calculate_reward_amount(base_amount: i128, rate: i128) -> (r: Result<i128, RewardsError>)
        ensures
            r == reward_amount(base_amount, rate),
    {
        if base_amount < 0 || rate < 0 {
            return Err(RewardsError::AmountMustBePositive);
        }
        if base_amount > MAX_REWARD_AMOUNT || rate > MAX_REWARD_RATE {
            return Err(RewardsError::AmountExceedsMaxLimit);
        }
        Self::safe_multiply(base_amount, rate)
    }
}

} // verus!
