//! The contract's instance storage as the rewards module uses it, held as
//! plain values, with the invariant that every rewards operation keeps.

use vstd::prelude::*;

use crate::address::Address;
use crate::keyed::{all_nonneg, entries_map, entries_unique, keys_unique, lemma_entries_empty, lemma_sum_bounds, lemma_sum_take_next, sum};
use crate::types::{RewardRate, RewardRateView, UserReward, UserRewardView};

verus! {

/// The rewards entries of the contract's instance storage.
///
/// An absent pool balance or issued total reads as zero; an absent map
/// reads as empty.
pub struct RewardsState {
    /// The reward token (set on initialization).
    pub token: Option<Address>,
    /// The rewards administrator (set on initialization).
    pub admin: Option<Address>,
    /// Tokens held by the contract for rewards.
    pub pool_balance: i128,
    /// Sum of all rewards ever issued.
    pub total_issued: i128,
    /// Reward rates, at most one per reward type.
    pub reward_rates: Vec<RewardRate>,
    /// Reward records, at most one per user.
    pub user_rewards: Vec<UserReward>,
    /// Held while a guarded operation waits for its token transfer.
    pub guard: bool,
    /// Addresses that may neither fund nor receive rewards.
    pub blacklist: Vec<Address>,
}

/// The pending amounts of a sequence of reward records.
pub open spec fn pending_amounts(s: Seq<UserReward>) -> Seq<int> {
    s.map_values(|u: UserReward| u.pending as int)
}

/// The earned totals of a sequence of reward records.
pub open spec fn earned_amounts(s: Seq<UserReward>) -> Seq<int> {
    s.map_values(|u: UserReward| u.total_earned as int)
}

/// A reward record whose earned total is what was claimed plus what is pending.
pub open spec fn record_consistent(u: UserRewardView) -> bool {
    &&& 0 <= u.pending
    &&& 0 <= u.claimed
    &&& u.total_earned == u.claimed + u.pending
}

impl RewardsState {
    /// `initialize_rewards` has run.
    pub open spec fn initialized(&self) -> bool {
        self.admin is Some
    }

    /// The reward record of each user.
    pub open spec fn users(&self) -> Map<Seq<u8>, UserRewardView> {
        entries_map(self.user_rewards@)
    }

    /// The rate of each reward type.
    pub open spec fn rates(&self) -> Map<Seq<u8>, RewardRateView> {
        entries_map(self.reward_rates@)
    }

    /// Rewards issued and not yet claimed, over all users.
    pub open spec fn outstanding(&self) -> int {
        sum(pending_amounts(self.user_rewards@))
    }

    /// The invariant of the rewards storage.
    pub open spec fn wf(&self) -> bool {
        &&& (self.token is Some) == (self.admin is Some)
        &&& keys_unique(self.user_rewards@)
        &&& keys_unique(self.reward_rates@)
        &&& forall|i: int|
            0 <= i < self.user_rewards@.len() ==> record_consistent(#[trigger] self.user_rewards@[i]@)
        // the pool covers every pending reward
        &&& self.outstanding() <= self.pool_balance
        &&& sum(earned_amounts(self.user_rewards@)) == self.total_issued
        &&& !self.initialized() ==> {
            &&& self.pool_balance == 0
            &&& self.user_rewards@.len() == 0
            &&& self.reward_rates@.len() == 0
        }
    }

    /// Storage before anything was written.
    pub fn new() -> (s: RewardsState)
        ensures
            s.wf(),
            !s.initialized(),
            s.token is None,
            s.pool_balance == 0,
            s.total_issued == 0,
            s.users() == Map::<Seq<u8>, UserRewardView>::empty(),
            s.rates() == Map::<Seq<u8>, RewardRateView>::empty(),
            !s.guard,
            s.blacklist@.len() == 0,
    {
        let s = RewardsState {
            token: None,
            admin: None,
            pool_balance: 0,
            total_issued: 0,
            reward_rates: Vec::new(),
            user_rewards: Vec::new(),
            guard: false,
            blacklist: Vec::new(),
        };
        proof {
            lemma_entries_empty(s.user_rewards@);
            lemma_entries_empty(s.reward_rates@);
            assert(pending_amounts(s.user_rewards@) =~= Seq::<int>::empty());
            assert(earned_amounts(s.user_rewards@) =~= Seq::<int>::empty());
        }
        s
    }
}

impl RewardsState {
    /// Whether the storage holds the rewards invariant.
    pub fn is_well_formed(&self) -> (r: bool)
        ensures
            r == self.wf(),
    {
        if self.token.is_some() != self.admin.is_some() {
            return false;
        }
        if !entries_unique(&self.user_rewards) || !entries_unique(&self.reward_rates) {
            return false;
        }
        let users = &self.user_rewards;
        let ghost p = pending_amounts(users@);
        let ghost e = earned_amounts(users@);
        let n = users.len();
        let mut i: usize = 0;
        while i < n
            invariant
                n == users.len(),
                users@ == self.user_rewards@,
                i <= n,
                forall|j: int| 0 <= j < i ==> record_consistent(#[trigger] users@[j]@),
            decreases n - i,
        {
            let u = &users[i];
            if u.pending < 0 || u.claimed < 0 {
                assert(!record_consistent(users@[i as int]@));
                return false;
            }
            match u.claimed.checked_add(u.pending) {
                Some(t) => {
                    if t != u.total_earned {
                        assert(!record_consistent(users@[i as int]@));
                        return false;
                    }
                },
                None => {
                    assert(!record_consistent(users@[i as int]@));
                    return false;
                },
            }
            i = i + 1;
        }
        assert(all_nonneg(p)) by {
            assert forall|j: int| 0 <= j < p.len() implies 0 <= #[trigger] p[j] by {
                assert(record_consistent(users@[j]@));
            }
        }
        assert(all_nonneg(e)) by {
            assert forall|j: int| 0 <= j < e.len() implies 0 <= #[trigger] e[j] by {
                assert(record_consistent(users@[j]@));
            }
        }
        let mut pending_sum: i128 = 0;
        let mut earned_sum: i128 = 0;
        let mut i: usize = 0;
        while i < n
            invariant
                n == users.len(),
                users@ == self.user_rewards@,
                i <= n,
                p == pending_amounts(users@),
                e == earned_amounts(users@),
                all_nonneg(p),
                all_nonneg(e),
                pending_sum == sum(p.take(i as int)),
                earned_sum == sum(e.take(i as int)),
            decreases n - i,
        {
            proof {
                lemma_sum_take_next(p, i as int);
                lemma_sum_take_next(e, i as int);
                lemma_sum_bounds(p, i + 1);
                lemma_sum_bounds(e, i + 1);
                lemma_sum_bounds(p, i as int);
                lemma_sum_bounds(e, i as int);
            }
            pending_sum = match pending_sum.checked_add(users[i].pending) {
                Some(v) => v,
                None => {
                    assert(sum(p) > self.pool_balance);
                    return false;
                },
            };
            earned_sum = match earned_sum.checked_add(users[i].total_earned) {
                Some(v) => v,
                None => {
                    assert(sum(e) != self.total_issued);
                    return false;
                },
            };
            i = i + 1;
        }
        assert(p.take(n as int) =~= p);
        assert(e.take(n as int) =~= e);
        if pending_sum > self.pool_balance || earned_sum != self.total_issued {
            return false;
        }
        if self.admin.is_none() {
            if self.pool_balance != 0 || self.user_rewards.len() != 0 || self.reward_rates.len()
                != 0 {
                return false;
            }
        }
        true
    }
}

/// Under the invariant, pending amounts are non-negative, the outstanding
/// total is non-negative and covers each record's pending amount.
pub proof fn lemma_outstanding_bounds(s: &RewardsState)
    requires
        s.wf(),
    ensures
        all_nonneg(pending_amounts(s.user_rewards@)),
        0 <= s.outstanding() <= s.pool_balance,
        forall|i: int|
            0 <= i < s.user_rewards@.len() ==> #[trigger] s.user_rewards@[i].pending <= s.outstanding(),
{
    let p = pending_amounts(s.user_rewards@);
    assert forall|i: int| 0 <= i < p.len() implies 0 <= #[trigger] p[i] by {
        assert(record_consistent(s.user_rewards@[i]@));
    }
    lemma_sum_bounds(p, 0);
    assert forall|i: int| 0 <= i < s.user_rewards@.len() implies #[trigger] s.user_rewards@[i].pending
        <= s.outstanding() by {
        lemma_sum_bounds(p, i);
    }
}

/// Under the invariant, each record's earned total is at most the issued total.
pub proof fn lemma_earned_bounds(s: &RewardsState)
    requires
        s.wf(),
    ensures
        forall|i: int|
            0 <= i < s.user_rewards@.len() ==> #[trigger] s.user_rewards@[i].total_earned
                <= s.total_issued,
{
    let e = earned_amounts(s.user_rewards@);
    assert forall|i: int| 0 <= i < e.len() implies 0 <= #[trigger] e[i] by {
        assert(record_consistent(s.user_rewards@[i]@));
    }
    assert forall|i: int| 0 <= i < s.user_rewards@.len() implies #[trigger] s.user_rewards@[i].total_earned
        <= s.total_issued by {
        lemma_sum_bounds(e, i);
    }
}

/// The rewards issued and not yet claimed, over all users.
pub fn outstanding_rewards(state: &RewardsState) -> (r: i128)
    requires
        state.wf(),
    ensures
        r == state.outstanding(),
{
    proof {
        lemma_outstanding_bounds(state);
    }
    let users = &state.user_rewards;
    let ghost p = pending_amounts(users@);
    let n = users.len();
    let mut total: i128 = 0;
    let mut i: usize = 0;
    while i < n
        invariant
            n == users.len(),
            p == pending_amounts(users@),
            all_nonneg(p),
            sum(p) <= i128::MAX,
            i <= n,
            total == sum(p.take(i as int)),
        decreases n - i,
    {
        proof {
            lemma_sum_take_next(p, i as int);
            lemma_sum_bounds(p, i + 1);
        }
        total = total + users[i].pending;
        i = i + 1;
    }
    assert(p.take(n as int) =~= p);
    total
}

} // verus!
