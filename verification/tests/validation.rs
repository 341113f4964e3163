use teachlink::address::Address;
use teachlink::errors::RewardsError;
use teachlink::reentrancy::ReentrancyGuard;
use teachlink::types::{BridgeTransactionStatus, EscrowStatus, RewardRate, SwapStatus, UserReward};
use teachlink::validation::config;
use teachlink::validation::{
    AddressValidator, BytesValidator, InputSanitizer, NumberValidator, RewardsValidator,
    StringValidator, ValidationError,
};

fn addr(key: &str) -> Address {
    Address::new(key.as_bytes().to_vec())
}

#[test]
fn amount_bounds() {
    assert_eq!(NumberValidator::validate_amount(0), Err(ValidationError::InvalidAmountRange));
    assert_eq!(NumberValidator::validate_amount(1), Ok(()));
    assert_eq!(NumberValidator::validate_amount(i128::MAX / 2), Ok(()));
    assert_eq!(NumberValidator::validate_amount(i128::MAX / 2 + 1), Err(ValidationError::InvalidAmountRange));
    assert_eq!(config::MAX_AMOUNT, i128::MAX / 2);
}

#[test]
fn reward_amount_and_rate_bounds() {
    assert_eq!(NumberValidator::validate_reward_amount(0), Err(ValidationError::InvalidAmountRange));
    assert_eq!(NumberValidator::validate_reward_amount(i128::MAX), Ok(()));
    assert_eq!(NumberValidator::validate_reward_rate(-1), Err(ValidationError::InvalidAmountRange));
    assert_eq!(NumberValidator::validate_reward_rate(0), Ok(()));
    assert_eq!(NumberValidator::validate_reward_rate(config::MAX_REWARD_RATE), Ok(()));
    assert_eq!(
        NumberValidator::validate_reward_rate(config::MAX_REWARD_RATE + 1),
        Err(ValidationError::InvalidAmountRange)
    );
    assert_eq!(InputSanitizer::sanitize_reward_amount(42), Ok(42));
    assert_eq!(InputSanitizer::sanitize_reward_amount(-5), Err(ValidationError::InvalidAmountRange));
    assert_eq!(InputSanitizer::sanitize_reward_rate(7), Ok(7));
    assert_eq!(InputSanitizer::sanitize_reward_rate(-7), Err(ValidationError::InvalidAmountRange));
}

#[test]
fn signer_count_and_threshold() {
    assert_eq!(NumberValidator::validate_signer_count(0), Err(ValidationError::EmptySignersList));
    assert_eq!(NumberValidator::validate_signer_count(1), Ok(()));
    assert_eq!(NumberValidator::validate_signer_count(100), Ok(()));
    assert_eq!(NumberValidator::validate_signer_count(101), Err(ValidationError::InvalidSignerCount));
    assert_eq!(NumberValidator::validate_threshold(0, 3), Err(ValidationError::InvalidThreshold));
    assert_eq!(NumberValidator::validate_threshold(3, 3), Ok(()));
    assert_eq!(NumberValidator::validate_threshold(4, 3), Err(ValidationError::InvalidThreshold));
}

#[test]
fn signer_count_is_compared_in_full() {
    if usize::BITS > 32 {
        let count = (1usize << 32) + 5;
        assert_eq!(NumberValidator::validate_signer_count(count), Err(ValidationError::InvalidSignerCount));
        assert_eq!(
            NumberValidator::validate_signer_count(1usize << 32),
            Err(ValidationError::InvalidSignerCount)
        );
    }
    assert_eq!(NumberValidator::validate_signer_count(usize::MAX), Err(ValidationError::InvalidSignerCount));
}

#[test]
fn chain_id_and_timeout() {
    assert_eq!(NumberValidator::validate_chain_id(0), Err(ValidationError::InvalidChainId));
    assert_eq!(NumberValidator::validate_chain_id(1), Ok(()));
    assert_eq!(NumberValidator::validate_chain_id(999999), Ok(()));
    assert_eq!(NumberValidator::validate_chain_id(1000000), Err(ValidationError::InvalidChainId));
    assert_eq!(NumberValidator::validate_timeout(59), Err(ValidationError::InvalidTimeout));
    assert_eq!(NumberValidator::validate_timeout(60), Ok(()));
    assert_eq!(NumberValidator::validate_timeout(315360000), Ok(()));
    assert_eq!(NumberValidator::validate_timeout(315360001), Err(ValidationError::InvalidTimeout));
}

#[test]
fn string_checks() {
    assert_eq!(StringValidator::validate_length(&b"".to_vec(), 10), Err(ValidationError::InvalidStringLength));
    assert_eq!(StringValidator::validate_length(&b"abc".to_vec(), 3), Ok(()));
    assert_eq!(StringValidator::validate_length(&b"abcd".to_vec(), 3), Err(ValidationError::InvalidStringLength));
    assert_eq!(StringValidator::validate_characters(&b"Hello, World! 42 #tag_1 a-b.c?@$%&*+=:".to_vec()), Ok(()));
    assert_eq!(StringValidator::validate_characters(&b"semi;colon".to_vec()), Err(ValidationError::InvalidStringLength));
    assert_eq!(StringValidator::validate_characters(&b"tab\there\n".to_vec()), Ok(()));
    assert_eq!(StringValidator::validate(&b"ok".to_vec(), 256), Ok(()));
    assert_eq!(StringValidator::validate(&b"no/slash".to_vec(), 256), Err(ValidationError::InvalidStringLength));
}

#[test]
fn byte_classes_follow_latin1_unicode_properties() {
    for b in 0u8..=255 {
        let c = b as char;
        let expected = c.is_alphanumeric()
            || c.is_whitespace()
            || matches!(
                c,
                '-' | '_' | '.' | ',' | '!' | '?' | '@' | '#' | '$' | '%' | '&' | '*' | '+' | '=' | ':'
            );
        assert_eq!(StringValidator::is_allowed_byte(b), expected, "byte {}", b);
    }
}

#[test]
fn bytes_checks() {
    assert_eq!(BytesValidator::validate_cross_chain_address(&vec![1u8; 19]), Err(ValidationError::InvalidBytesLength));
    assert_eq!(BytesValidator::validate_cross_chain_address(&vec![1u8; 33]), Err(ValidationError::InvalidBytesLength));
    assert_eq!(BytesValidator::validate_cross_chain_address(&vec![0u8; 20]), Err(ValidationError::InvalidAddressFormat));
    let mut a = vec![0u8; 32];
    a[31] = 1;
    assert_eq!(BytesValidator::validate_cross_chain_address(&a), Ok(()));
    assert_eq!(BytesValidator::validate_length(&vec![0u8; 4], 2, 4), Ok(()));
    assert_eq!(BytesValidator::validate_length(&vec![0u8; 5], 2, 4), Err(ValidationError::InvalidBytesLength));
    assert_eq!(BytesValidator::validate_length(&vec![0u8; 1], 2, 4), Err(ValidationError::InvalidBytesLength));
    assert_eq!(BytesValidator::validate_payload(&vec![]), Err(ValidationError::InvalidCrossChainData));
    assert_eq!(BytesValidator::validate_payload(&vec![0u8; 4096]), Ok(()));
    assert_eq!(BytesValidator::validate_payload(&vec![0u8; 4097]), Err(ValidationError::InvalidBytesLength));
}

#[test]
fn address_checks() {
    let blacklist = vec![addr("GBAD")];
    assert_eq!(AddressValidator::validate_format(&addr("GOK")), Ok(()));
    assert_eq!(AddressValidator::check_blacklist(&blacklist, &addr("GOK")), Ok(()));
    assert_eq!(AddressValidator::check_blacklist(&blacklist, &addr("GBAD")), Err(ValidationError::BlacklistedAddress));
    assert_eq!(AddressValidator::validate(&blacklist, &addr("GBAD")), Err(ValidationError::BlacklistedAddress));
    assert_eq!(AddressValidator::validate(&vec![], &addr("GBAD")), Ok(()));
}

#[test]
fn rewards_validator_maps_errors() {
    let blacklist = vec![addr("GBAD")];
    let ok = b"course".to_vec();
    assert_eq!(RewardsValidator::validate_reward_issuance(&blacklist, &addr("GOK"), 10, &ok), Ok(()));
    assert_eq!(
        RewardsValidator::validate_reward_issuance(&blacklist, &addr("GBAD"), 10, &ok),
        Err(RewardsError::AmountMustBePositive)
    );
    assert_eq!(
        RewardsValidator::validate_reward_issuance(&blacklist, &addr("GOK"), 0, &ok),
        Err(RewardsError::AmountMustBePositive)
    );
    assert_eq!(RewardsValidator::validate_pool_funding(&blacklist, &addr("GOK"), 1), Ok(()));
    assert_eq!(
        RewardsValidator::validate_pool_funding(&blacklist, &addr("GBAD"), 1),
        Err(RewardsError::AmountMustBePositive)
    );
    assert_eq!(RewardsValidator::validate_reward_rate_setting(5, &ok), Ok(()));
    assert_eq!(
        RewardsValidator::validate_reward_rate_setting(-5, &ok),
        Err(RewardsError::RateCannotBeNegative)
    );
    assert_eq!(
        RewardsValidator::validate_reward_rate_setting(5, &b"".to_vec()),
        Err(RewardsError::AmountMustBePositive)
    );
}

#[test]
fn guard_utilities() {
    let mut active = false;
    let r: Result<u32, &str> = ReentrancyGuard::with_guard(&mut active, "busy", || Ok(7));
    assert_eq!(r, Ok(7));
    assert!(!active);
    let r: Result<u32, &str> = ReentrancyGuard::with_guard(&mut active, "busy", || Err("inner"));
    assert_eq!(r, Err("inner"));
    assert!(!active);
    active = true;
    let r: Result<u32, &str> = ReentrancyGuard::with_guard(&mut active, "busy", || Ok(7));
    assert_eq!(r, Err("busy"));
    assert!(ReentrancyGuard::is_guard_active(&active));
    ReentrancyGuard::force_clear_guard(&mut active);
    assert!(!ReentrancyGuard::is_guard_active(&active));
}

#[test]
fn defaults() {
    assert_eq!(EscrowStatus::default(), EscrowStatus::Pending);
    assert_eq!(BridgeTransactionStatus::default(), BridgeTransactionStatus::Pending);
    assert_eq!(SwapStatus::default(), SwapStatus::Pending);
    let u = UserReward::default();
    assert_eq!(u.total_earned, 0);
    assert_eq!(u.pending, 0);
    assert_eq!(u.user, Address::default());
    let r = RewardRate::default();
    assert_eq!(r.rate, 0);
    assert!(!r.enabled);
    assert!(r.reward_type.is_empty());
}

#[test]
fn address_equality() {
    assert!(addr("GA").same_as(&addr("GA")));
    assert!(!addr("GA").same_as(&addr("GB")));
    assert_eq!(addr("GA").duplicate(), addr("GA"));
}
