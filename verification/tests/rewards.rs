use teachlink::address::Address;
use teachlink::errors::RewardsError;
use teachlink::events::TransferDirection;
use teachlink::rewards::{Rewards, MAX_REWARD_AMOUNT, MAX_REWARD_RATE};
use teachlink::storage::RewardsState;

fn addr(key: &str) -> Address {
    Address::new(key.as_bytes().to_vec())
}

fn text(s: &str) -> Vec<u8> {
    s.as_bytes().to_vec()
}

fn initialized() -> RewardsState {
    let mut state = RewardsState::new();
    Rewards::initialize_rewards(&mut state, addr("CTOKEN"), addr("GADMIN")).unwrap();
    state
}

#[test]
fn claim_rewards_rejects_when_reentrancy_guard_active() {
    let mut state = RewardsState::new();
    let user = addr("GUSER");
    state.guard = true;

    let res = Rewards::claim_rewards(&mut state, user, 0);
    assert_eq!(res, Err(RewardsError::ReentrancyDetected));
}

#[test]
fn test_fund_reward_pool_overflow_protection() {
    let mut state = initialized();

    // Funding with the maximum allowed amount succeeds
    let funder = addr("GFUNDER");
    let max_amount = MAX_REWARD_AMOUNT;
    let result = Rewards::fund_reward_pool(&mut state, funder.duplicate(), max_amount, 10);
    assert!(result.is_ok());
    Rewards::finish_transfer(&mut state);

    // Funding with an amount above the limit fails
    let excessive_amount = MAX_REWARD_AMOUNT + 1;
    let result = Rewards::fund_reward_pool(&mut state, funder, excessive_amount, 11);
    assert_eq!(result, Err(RewardsError::AmountExceedsMaxLimit));
}

#[test]
fn test_issue_reward_overflow_protection() {
    let mut state = initialized();

    let funder = addr("GFUNDER");
    Rewards::fund_reward_pool(&mut state, funder, MAX_REWARD_AMOUNT, 10).unwrap();
    Rewards::finish_transfer(&mut state);

    // Issuing the maximum allowed amount succeeds
    let recipient = addr("GRECIPIENT");
    let reward_type = text("test");
    let result = Rewards::issue_reward(
        &mut state,
        recipient.duplicate(),
        MAX_REWARD_AMOUNT,
        reward_type.clone(),
        11,
    );
    assert!(result.is_ok());

    // Issuing an amount above the limit fails
    let excessive_amount = MAX_REWARD_AMOUNT + 1;
    let result = Rewards::issue_reward(&mut state, recipient, excessive_amount, reward_type, 12);
    assert_eq!(result, Err(RewardsError::AmountExceedsMaxLimit));
}

#[test]
fn test_set_reward_rate_overflow_protection() {
    let mut state = initialized();

    let reward_type = text("test");

    let valid_rate = MAX_REWARD_RATE;
    let result = Rewards::set_reward_rate(&mut state, reward_type.clone(), valid_rate, true);
    assert!(result.is_ok());

    let excessive_rate = MAX_REWARD_RATE + 1;
    let result = Rewards::set_reward_rate(&mut state, reward_type, excessive_rate, true);
    assert_eq!(result, Err(RewardsError::AmountExceedsMaxLimit));

    let negative_rate = -1;
    let reward_type2 = text("test2");
    let result = Rewards::set_reward_rate(&mut state, reward_type2, negative_rate, true);
    assert_eq!(result, Err(RewardsError::RateCannotBeNegative));
}

#[test]
fn test_safe_multiply_overflow_protection() {
    let result = Rewards::safe_multiply(1000, 1000);
    assert_eq!(result.unwrap(), 1000000);

    let large_a = MAX_REWARD_AMOUNT;
    let large_b = 2;
    let result = Rewards::safe_multiply(large_a, large_b);
    assert_eq!(result, Err(RewardsError::ArithmeticOverflow));
}

#[test]
fn test_safe_divide_zero_protection() {
    let result = Rewards::safe_divide(1000, 10);
    assert_eq!(result.unwrap(), 100);

    let result = Rewards::safe_divide(1000, 0);
    assert_eq!(result, Err(RewardsError::InvalidInput));
}

#[test]
fn test_calculate_reward_amount_overflow_protection() {
    let result = Rewards::calculate_reward_amount(1000, 100);
    assert_eq!(result.unwrap(), 100000);

    let result = Rewards::calculate_reward_amount(-1000, 100);
    assert_eq!(result, Err(RewardsError::AmountMustBePositive));

    let result = Rewards::calculate_reward_amount(1000, -100);
    assert_eq!(result, Err(RewardsError::AmountMustBePositive));

    let result = Rewards::calculate_reward_amount(MAX_REWARD_AMOUNT + 1, 100);
    assert_eq!(result, Err(RewardsError::AmountExceedsMaxLimit));

    let result = Rewards::calculate_reward_amount(1000, MAX_REWARD_RATE + 1);
    assert_eq!(result, Err(RewardsError::AmountExceedsMaxLimit));

    let large_base = MAX_REWARD_AMOUNT;
    let large_rate = 1000;
    let result = Rewards::calculate_reward_amount(large_base, large_rate);
    assert_eq!(result, Err(RewardsError::ArithmeticOverflow));
}

#[test]
fn test_user_rewards_overflow_protection() {
    let mut state = initialized();

    let funder = addr("GFUNDER");
    Rewards::fund_reward_pool(&mut state, funder, MAX_REWARD_AMOUNT, 10).unwrap();
    Rewards::finish_transfer(&mut state);

    let recipient = addr("GRECIPIENT");
    let reward_type = text("test");

    Rewards::issue_reward(&mut state, recipient.duplicate(), MAX_REWARD_AMOUNT, reward_type.clone(), 11)
        .unwrap();

    // Another reward is refused: the pool already covers the first one only
    let result = Rewards::issue_reward(&mut state, recipient, 1, reward_type, 12);
    assert_eq!(result, Err(RewardsError::InsufficientRewardPoolBalance));
}

#[test]
fn test_claim_rewards_overflow_protection() {
    let mut state = initialized();

    let funder = addr("GFUNDER");
    let recipient = addr("GRECIPIENT");
    let reward_type = text("test");

    Rewards::fund_reward_pool(&mut state, funder, 1000, 10).unwrap();
    Rewards::finish_transfer(&mut state);
    Rewards::issue_reward(&mut state, recipient.duplicate(), 1000, reward_type, 11).unwrap();

    let result = Rewards::claim_rewards(&mut state, recipient.duplicate(), 12);
    assert!(result.is_ok());
    Rewards::finish_transfer(&mut state);

    let result = Rewards::claim_rewards(&mut state, recipient, 13);
    assert_eq!(result, Err(RewardsError::NoPendingRewards));
}

// ---------------------------------------------------------------------
// Further scenarios
// ---------------------------------------------------------------------

#[test]
fn initialize_twice_is_refused() {
    let mut state = initialized();
    let result = Rewards::initialize_rewards(&mut state, addr("CTOKEN2"), addr("GADMIN2"));
    assert_eq!(result, Err(RewardsError::AlreadyInitialized));
    assert_eq!(Rewards::get_rewards_admin(&state), addr("GADMIN"));
}

#[test]
fn fund_issue_claim_round_trip() {
    let mut state = initialized();
    assert!(state.is_well_formed());

    let (transfer, event) =
        Rewards::fund_reward_pool(&mut state, addr("GFUNDER"), 5000, 100).unwrap();
    assert_eq!(transfer.token, addr("CTOKEN"));
    assert_eq!(transfer.account, addr("GFUNDER"));
    assert_eq!(transfer.amount, 5000);
    assert_eq!(transfer.direction, TransferDirection::IntoPool);
    assert_eq!(event.funder, addr("GFUNDER"));
    assert_eq!(event.amount, 5000);
    assert_eq!(event.timestamp, 100);
    assert!(state.guard);
    Rewards::finish_transfer(&mut state);
    assert!(!state.guard);
    assert_eq!(Rewards::get_reward_pool_balance(&state), 5000);

    let event = Rewards::issue_reward(&mut state, addr("GALICE"), 300, text("course"), 101).unwrap();
    assert_eq!(event.recipient, addr("GALICE"));
    assert_eq!(event.amount, 300);
    assert_eq!(event.reward_type, text("course"));
    assert_eq!(event.timestamp, 101);
    Rewards::issue_reward(&mut state, addr("GALICE"), 200, text("course"), 102).unwrap();
    Rewards::issue_reward(&mut state, addr("GBOB"), 50, text("quiz"), 103).unwrap();
    assert_eq!(Rewards::get_total_rewards_issued(&state), 550);
    assert_eq!(Rewards::get_reward_pool_balance(&state), 5000);

    let alice = Rewards::get_user_rewards(&state, &addr("GALICE")).unwrap();
    assert_eq!(alice.user, addr("GALICE"));
    assert_eq!(alice.total_earned, 500);
    assert_eq!(alice.pending, 500);
    assert_eq!(alice.claimed, 0);
    assert_eq!(alice.last_claim_timestamp, 0);

    let (transfer, event) = Rewards::claim_rewards(&mut state, addr("GALICE"), 200).unwrap();
    assert_eq!(transfer.account, addr("GALICE"));
    assert_eq!(transfer.amount, 500);
    assert_eq!(transfer.direction, TransferDirection::OutOfPool);
    assert_eq!(event.amount, 500);
    assert_eq!(event.timestamp, 200);
    Rewards::finish_transfer(&mut state);

    let alice = Rewards::get_user_rewards(&state, &addr("GALICE")).unwrap();
    assert_eq!(alice.total_earned, 500);
    assert_eq!(alice.claimed, 500);
    assert_eq!(alice.pending, 0);
    assert_eq!(alice.last_claim_timestamp, 200);
    assert_eq!(Rewards::get_reward_pool_balance(&state), 4500);
    assert_eq!(Rewards::get_total_rewards_issued(&state), 550);
    assert!(state.is_well_formed());
}

#[test]
fn claim_without_record_is_refused() {
    let mut state = initialized();
    let result = Rewards::claim_rewards(&mut state, addr("GNOBODY"), 1);
    assert_eq!(result, Err(RewardsError::NoRewardsAvailable));
    assert!(!state.guard);
}

#[test]
fn fund_while_transfer_pending_is_refused() {
    let mut state = initialized();
    Rewards::fund_reward_pool(&mut state, addr("GFUNDER"), 10, 1).unwrap();
    let result = Rewards::fund_reward_pool(&mut state, addr("GFUNDER"), 10, 2);
    assert_eq!(result, Err(RewardsError::ReentrancyDetected));
    assert_eq!(Rewards::get_reward_pool_balance(&state), 10);
}

#[test]
fn fund_rejects_non_positive_and_blacklisted() {
    let mut state = initialized();
    let result = Rewards::fund_reward_pool(&mut state, addr("GFUNDER"), 0, 1);
    assert_eq!(result, Err(RewardsError::AmountMustBePositive));
    state.blacklist.push(addr("GBAD"));
    let result = Rewards::fund_reward_pool(&mut state, addr("GBAD"), 10, 1);
    assert_eq!(result, Err(RewardsError::AmountMustBePositive));
    assert_eq!(Rewards::get_reward_pool_balance(&state), 0);
}

#[test]
fn fund_overflow_is_refused() {
    let mut state = initialized();
    Rewards::fund_reward_pool(&mut state, addr("GFUNDER"), MAX_REWARD_AMOUNT, 1).unwrap();
    Rewards::finish_transfer(&mut state);
    Rewards::fund_reward_pool(&mut state, addr("GFUNDER"), MAX_REWARD_AMOUNT - 1, 2).unwrap();
    Rewards::finish_transfer(&mut state);
    assert_eq!(Rewards::get_reward_pool_balance(&state), i128::MAX);
    let result = Rewards::fund_reward_pool(&mut state, addr("GFUNDER"), 1, 3);
    assert_eq!(result, Err(RewardsError::ArithmeticOverflow));
    assert_eq!(Rewards::get_reward_pool_balance(&state), i128::MAX);
}

#[test]
fn issue_rejects_invalid_reward_type() {
    let mut state = initialized();
    Rewards::fund_reward_pool(&mut state, addr("GFUNDER"), 100, 1).unwrap();
    Rewards::finish_transfer(&mut state);
    let result = Rewards::issue_reward(&mut state, addr("GALICE"), 10, text(""), 2);
    assert_eq!(result, Err(RewardsError::AmountMustBePositive));
    let result = Rewards::issue_reward(&mut state, addr("GALICE"), 10, text("bad<type>"), 2);
    assert_eq!(result, Err(RewardsError::AmountMustBePositive));
    let result = Rewards::issue_reward(&mut state, addr("GALICE"), 10, vec![b'a'; 257], 2);
    assert_eq!(result, Err(RewardsError::AmountMustBePositive));
    let result = Rewards::issue_reward(&mut state, addr("GALICE"), 10, vec![b'a'; 256], 2);
    assert!(result.is_ok());
}

#[test]
fn issue_beyond_uncommitted_pool_is_refused() {
    let mut state = initialized();
    Rewards::fund_reward_pool(&mut state, addr("GFUNDER"), 100, 1).unwrap();
    Rewards::finish_transfer(&mut state);
    Rewards::issue_reward(&mut state, addr("GALICE"), 60, text("a"), 2).unwrap();
    let result = Rewards::issue_reward(&mut state, addr("GBOB"), 41, text("a"), 3);
    assert_eq!(result, Err(RewardsError::InsufficientRewardPoolBalance));
    Rewards::issue_reward(&mut state, addr("GBOB"), 40, text("a"), 3).unwrap();
    // every pending reward can be paid
    Rewards::claim_rewards(&mut state, addr("GBOB"), 4).unwrap();
    Rewards::finish_transfer(&mut state);
    Rewards::claim_rewards(&mut state, addr("GALICE"), 5).unwrap();
    Rewards::finish_transfer(&mut state);
    assert_eq!(Rewards::get_reward_pool_balance(&state), 0);
}

#[test]
fn earned_total_overflow_is_refused() {
    let mut state = initialized();
    Rewards::fund_reward_pool(&mut state, addr("GFUNDER"), MAX_REWARD_AMOUNT, 1).unwrap();
    Rewards::finish_transfer(&mut state);
    Rewards::issue_reward(&mut state, addr("GALICE"), MAX_REWARD_AMOUNT, text("a"), 2).unwrap();
    Rewards::claim_rewards(&mut state, addr("GALICE"), 3).unwrap();
    Rewards::finish_transfer(&mut state);
    Rewards::fund_reward_pool(&mut state, addr("GFUNDER"), MAX_REWARD_AMOUNT, 4).unwrap();
    Rewards::finish_transfer(&mut state);
    let result = Rewards::issue_reward(&mut state, addr("GALICE"), MAX_REWARD_AMOUNT, text("a"), 5);
    assert_eq!(result, Err(RewardsError::ArithmeticOverflow));
    assert_eq!(Rewards::get_total_rewards_issued(&state), MAX_REWARD_AMOUNT);
}

#[test]
fn reward_rates_are_stored_and_replaced() {
    let mut state = initialized();
    assert_eq!(Rewards::get_reward_rate(&state, &text("course")), None);
    Rewards::set_reward_rate(&mut state, text("course"), 5, true).unwrap();
    Rewards::set_reward_rate(&mut state, text("quiz"), 7, false).unwrap();
    Rewards::set_reward_rate(&mut state, text("course"), 9, false).unwrap();
    let rate = Rewards::get_reward_rate(&state, &text("course")).unwrap();
    assert_eq!(rate.reward_type, text("course"));
    assert_eq!(rate.rate, 9);
    assert!(!rate.enabled);
    assert_eq!(Rewards::get_reward_rate(&state, &text("quiz")).unwrap().rate, 7);
    assert_eq!(state.reward_rates.len(), 2);
}

#[test]
fn admin_can_be_replaced() {
    let mut state = initialized();
    Rewards::update_rewards_admin(&mut state, addr("GNEWADMIN"));
    assert_eq!(Rewards::get_rewards_admin(&state), addr("GNEWADMIN"));
}

#[test]
fn safe_divide_rounds_toward_zero() {
    assert_eq!(Rewards::safe_divide(7, 2), Ok(3));
    assert_eq!(Rewards::safe_divide(-7, 2), Ok(-3));
    assert_eq!(Rewards::safe_divide(7, -2), Ok(-3));
    assert_eq!(Rewards::safe_divide(-7, -2), Ok(3));
    assert_eq!(Rewards::safe_divide(i128::MIN, 1), Ok(i128::MIN));
    assert_eq!(Rewards::safe_divide(i128::MIN, -1), Err(RewardsError::ArithmeticOverflow));
    assert_eq!(Rewards::safe_divide(i128::MAX, -1), Ok(-i128::MAX));
}

#[test]
fn calculate_reward_amount_at_limits() {
    assert_eq!(Rewards::calculate_reward_amount(0, 0), Ok(0));
    assert_eq!(Rewards::calculate_reward_amount(MAX_REWARD_AMOUNT, 1), Ok(MAX_REWARD_AMOUNT));
    assert_eq!(Rewards::calculate_reward_amount(MAX_REWARD_AMOUNT, 2), Err(RewardsError::ArithmeticOverflow));
    assert_eq!(MAX_REWARD_RATE, MAX_REWARD_AMOUNT / 1000);
    assert_eq!(MAX_REWARD_AMOUNT, i128::MAX / 2 + 1);
}

#[test]
fn well_formedness_check_detects_broken_storage() {
    let mut state = initialized();
    Rewards::fund_reward_pool(&mut state, addr("GFUNDER"), 100, 1).unwrap();
    Rewards::finish_transfer(&mut state);
    Rewards::issue_reward(&mut state, addr("GALICE"), 60, text("a"), 2).unwrap();
    assert!(state.is_well_formed());
    state.pool_balance = 59;
    assert!(!state.is_well_formed());
    state.pool_balance = 100;
    state.total_issued = 61;
    assert!(!state.is_well_formed());
    let fresh = RewardsState::new();
    assert!(fresh.is_well_formed());
}
