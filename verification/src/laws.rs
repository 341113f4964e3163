//! Properties of the rewards operations taken together.

use vstd::prelude::*;

use crate::errors::RewardsError;
use crate::keyed::{lemma_entries_lookup, index_of_key};
use crate::rewards::{
    claim_error, claimed, funded, funding_error, issuance_error, issued, rate_error, rate_set,
    record_or_fresh, reward_amount, MAX_REWARD_AMOUNT, MAX_REWARD_RATE,
};
use crate::types::RewardRateView;
use crate::validation::{is_allowed_byte, is_blacklisted};
use crate::storage::{lemma_outstanding_bounds, record_consistent, RewardsState};
use crate::types::UserRewardView;

verus! {

/// While a funding or a claim waits for its token transfer, any other
/// funding or claim is refused as reentrant (and, being refused, changes
/// nothing).
pub proof fn law_guard_refuses_reentry(s: RewardsState, funder: Seq<u8>, amount: i128, user: Seq<u8>)
    requires
        s.guard,
    ensures
        funding_error(s, funder, amount) == Some(RewardsError::ReentrancyDetected),
        claim_error(s, user) == Some(RewardsError::ReentrancyDetected),
{
}

/// Every reward record is consistent: what was earned is what was claimed
/// plus what is pending, neither negative, and the pool covers what is
/// pending.
pub proof fn law_records_consistent(s: RewardsState, user: Seq<u8>)
    requires
        s.wf(),
        s.users().contains_key(user),
    ensures
        record_consistent(s.users()[user]),
        s.users()[user].user == user,
        s.users()[user].pending <= s.pool_balance,
        s.users()[user].total_earned <= s.total_issued,
{
    let i = index_of_key(s.user_rewards@, user);
    assert(s.user_rewards@[i].user@ == user);
    lemma_entries_lookup(s.user_rewards@, i);
    assert(record_consistent(s.user_rewards@[i]@));
    lemma_outstanding_bounds(&s);
    crate::storage::lemma_earned_bounds(&s);
}

/// The pool always covers pending rewards: when no transfer is under way,
/// a user with a pending reward can claim it.
pub proof fn law_pending_rewards_claimable(s: RewardsState, user: Seq<u8>)
    requires
        s.wf(),
        !s.guard,
        s.users().contains_key(user),
        s.users()[user].pending > 0,
    ensures
        claim_error(s, user) is None,
{
    law_records_consistent(s, user);
}

/// A reward that was issued can be claimed in full: after issuing `amount`
/// to `recipient`, a claim by `recipient` succeeds and pays what was
/// pending before plus `amount`.
pub proof fn law_issue_then_claim(
    s1: RewardsState,
    s2: RewardsState,
    recipient: Seq<u8>,
    amount: i128,
    reward_type: Seq<u8>,
)
    requires
        s1.wf(),
        s2.wf(),
        !s1.guard,
        issuance_error(s1, recipient, amount, reward_type) is None,
        issued(s1, s2, recipient, amount),
    ensures
        claim_error(s2, recipient) is None,
        s2.users()[recipient].pending == record_or_fresh(s1, recipient).pending + amount,
{
    if s1.users().contains_key(recipient) {
        law_records_consistent(s1, recipient);
    }
    assert(s2.users().contains_key(recipient));
    law_pending_rewards_claimable(s2, recipient);
}

/// A claim empties the user's pending rewards: once its transfer is done,
/// a second claim is refused with `NoPendingRewards`.
pub proof fn law_claim_clears_pending(s1: RewardsState, s2: RewardsState, user: Seq<u8>, now: u64)
    requires
        s1.wf(),
        claim_error(s1, user) is None,
        claimed(s1, s2, user, now),
    ensures
        claim_error(RewardsState { guard: false, ..s2 }, user) == Some(
            RewardsError::NoPendingRewards,
        ),
{
    let s3 = RewardsState { guard: false, ..s2 };
    assert(s3.users() == s2.users());
    assert(s3.users()[user] == UserRewardView { claimed: (s1.users()[user].claimed + s1.users()[user].pending) as i128, pending: 0, last_claim_timestamp: now, ..s1.users()[user] });
}

/// Funding is owed whenever no transfer is under way, the funder is not
/// blacklisted, the amount is between 1 and `MAX_REWARD_AMOUNT` and the
/// pool does not overflow, whatever rewards are pending; the pool then
/// grows by exactly the amount and nothing else changes but the guard.
pub proof fn law_funding_accepted(
    s1: RewardsState,
    s2: RewardsState,
    funder: Seq<u8>,
    amount: i128,
)
    requires
        !s1.guard,
        !is_blacklisted(s1.blacklist@, funder),
        1 <= amount <= MAX_REWARD_AMOUNT,
        s1.pool_balance + amount <= i128::MAX,
    ensures
        funding_error(s1, funder, amount) is None,
        funded(s1, s2, amount) ==> {
            &&& s2.pool_balance == s1.pool_balance + amount
            &&& s2.users() == s1.users()
            &&& s2.rates() == s1.rates()
            &&& s2.total_issued == s1.total_issued
            &&& s2.token == s1.token
            &&& s2.admin == s1.admin
        },
{
}

/// Issuing is owed whenever the reward is valid (recipient not
/// blacklisted, a reward type of 1 to 256 accepted bytes), the amount is
/// between 1 and `MAX_REWARD_AMOUNT`, the pool minus every pending reward
/// (the recipient's own included once) covers the amount, and the
/// recipient's earned and pending amounts and the issued total stay within
/// `i128`. The recipient then has exactly `amount` more earned and pending,
/// with claimed and claim time unchanged, and no other user's record moves.
pub proof fn law_issuance_accepted(
    s1: RewardsState,
    s2: RewardsState,
    recipient: Seq<u8>,
    amount: i128,
    reward_type: Seq<u8>,
)
    requires
        s1.wf(),
        !is_blacklisted(s1.blacklist@, recipient),
        0 < reward_type.len() <= 256,
        forall|i: int| 0 <= i < reward_type.len() ==> is_allowed_byte(#[trigger] reward_type[i]),
        1 <= amount <= MAX_REWARD_AMOUNT,
        s1.pool_balance - s1.outstanding() >= amount,
        s1.total_issued + amount <= i128::MAX,
        s1.users().contains_key(recipient) ==> s1.users()[recipient].total_earned + amount
            <= i128::MAX && s1.users()[recipient].pending + amount <= i128::MAX,
    ensures
        issuance_error(s1, recipient, amount, reward_type) is None,
        issued(s1, s2, recipient, amount) ==> {
            &&& s2.users().contains_key(recipient)
            &&& s2.users()[recipient].user == recipient
            &&& s2.users()[recipient].pending == (if s1.users().contains_key(recipient) {
                s1.users()[recipient].pending
            } else {
                0
            }) + amount
            &&& s2.users()[recipient].total_earned == (if s1.users().contains_key(recipient) {
                s1.users()[recipient].total_earned
            } else {
                0
            }) + amount
            &&& s2.users()[recipient].claimed == (if s1.users().contains_key(recipient) {
                s1.users()[recipient].claimed
            } else {
                0
            })
            &&& s2.users()[recipient].last_claim_timestamp == (if s1.users().contains_key(
                recipient,
            ) {
                s1.users()[recipient].last_claim_timestamp
            } else {
                0
            })
            &&& forall|u: Seq<u8>| u != recipient ==> #[trigger] s2.users().contains_key(u)
                == s1.users().contains_key(u) && (s1.users().contains_key(u) ==> s2.users()[u]
                == s1.users()[u])
            &&& s2.total_issued == s1.total_issued + amount
            &&& s2.pool_balance == s1.pool_balance
        },
{
    if s1.users().contains_key(recipient) {
        law_records_consistent(s1, recipient);
    }
}

/// A claim records its own time: after a claim at `now`, the claimant's
/// record has claim time `now`, nothing pending, claimed grown by what was
/// pending, and the same earned total; the pool shrinks by what was paid.
pub proof fn law_claim_settles_record(s1: RewardsState, s2: RewardsState, user: Seq<u8>, now: u64)
    requires
        s1.wf(),
        claim_error(s1, user) is None,
        claimed(s1, s2, user, now),
    ensures
        s2.users().contains_key(user),
        s2.users()[user].last_claim_timestamp == now,
        s2.users()[user].pending == 0,
        s2.users()[user].claimed == s1.users()[user].claimed + s1.users()[user].pending,
        s2.users()[user].total_earned == s1.users()[user].total_earned,
        s2.pool_balance == s1.pool_balance - s1.users()[user].pending,
        forall|u: Seq<u8>| u != user ==> #[trigger] s2.users().contains_key(u)
            == s1.users().contains_key(u) && (s1.users().contains_key(u) ==> s2.users()[u]
            == s1.users()[u]),
{
}

/// Setting a rate is owed for every rate from 0 to `MAX_REWARD_RATE`, and
/// afterwards the reward type holds exactly the given rate and enabled flag,
/// whatever it held before; other reward types keep their rates.
pub proof fn law_rate_set_replaces(
    s1: RewardsState,
    s2: RewardsState,
    reward_type: Seq<u8>,
    rate: i128,
    enabled: bool,
)
    ensures
        0 <= rate <= MAX_REWARD_RATE ==> rate_error(rate) is None,
        rate_set(s1, s2, reward_type, rate, enabled) ==> {
            &&& s2.rates().contains_key(reward_type)
            &&& s2.rates()[reward_type].reward_type == reward_type
            &&& s2.rates()[reward_type].rate == rate
            &&& s2.rates()[reward_type].enabled == enabled
            &&& forall|t: Seq<u8>| t != reward_type ==> #[trigger] s2.rates().contains_key(t)
                == s1.rates().contains_key(t) && (s1.rates().contains_key(t) ==> s2.rates()[t]
                == s1.rates()[t])
        },
{
}

/// A reward is the base amount times the rate whenever both lie within
/// their limits and the product fits in `i128`.
pub proof fn law_reward_amount_is_product(base_amount: i128, rate: i128)
    requires
        0 <= base_amount <= MAX_REWARD_AMOUNT,
        0 <= rate <= MAX_REWARD_RATE,
        base_amount * rate <= i128::MAX,
    ensures
        reward_amount(base_amount, rate) == Ok::<i128, RewardsError>((base_amount * rate) as i128),
{
    assert(base_amount * rate >= 0) by (nonlinear_arith)
        requires
            0 <= base_amount,
            0 <= rate,
    ;
}

} // verus!
