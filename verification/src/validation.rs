//! Input validation: amounts, counts, identifiers, strings and byte strings.

pub mod config;

use vstd::prelude::*;

use crate::address::Address;
use crate::errors::RewardsError;

verus! {

/// Validation errors
#[derive(Clone, Copy, Debug, PartialEq, Eq, Structural)]
pub enum ValidationError {
    InvalidAddressFormat,
    BlacklistedAddress,
    InvalidAmountRange,
    InvalidSignerCount,
    InvalidThreshold,
    InvalidStringLength,
    InvalidChainId,
    InvalidTimeout,
    EmptySignersList,
    DuplicateSigners,
    InvalidBytesLength,
    InvalidCrossChainData,
}

/// Result type for validation operations
pub type ValidationResult<T> = core::result::Result<T, ValidationError>;

// ---------------------------------------------------------------------
// What each check accepts
// ---------------------------------------------------------------------

/// `Ok(())` when `cond` holds, else the given error.
pub open spec fn check(cond: bool, e: ValidationError) -> ValidationResult<()> {
    if cond {
        Ok(())
    } else {
        Err(e)
    }
}

/// Whether `a` occurs in the blacklist.
pub open spec fn is_blacklisted(blacklist: Seq<Address>, a: Seq<u8>) -> bool {
    exists|i: int| 0 <= i < blacklist.len() && #[trigger] blacklist[i]@ == a
}

pub open spec fn amount_result(amount: i128) -> ValidationResult<()> {
    check(config::MIN_AMOUNT <= amount <= config::MAX_AMOUNT, ValidationError::InvalidAmountRange)
}

pub open spec fn reward_amount_result(amount: i128) -> ValidationResult<()> {
    check(
        config::MIN_REWARD_AMOUNT <= amount <= config::MAX_REWARD_AMOUNT,
        ValidationError::InvalidAmountRange,
    )
}

pub open spec fn reward_rate_result(rate: i128) -> ValidationResult<()> {
    check(0 <= rate <= config::MAX_REWARD_RATE, ValidationError::InvalidAmountRange)
}

/// A signer list must hold between `MIN_SIGNERS` and `MAX_SIGNERS` signers.
pub open spec fn signer_count_result(count: usize) -> ValidationResult<()> {
    if count == 0 {
        Err(ValidationError::EmptySignersList)
    } else if count < config::MIN_SIGNERS || count > config::MAX_SIGNERS {
        Err(ValidationError::InvalidSignerCount)
    } else {
        Ok(())
    }
}

pub open spec fn threshold_result(threshold: u32, signer_count: u32) -> ValidationResult<()> {
    check(
        config::MIN_THRESHOLD <= threshold <= signer_count,
        ValidationError::InvalidThreshold,
    )
}

pub open spec fn chain_id_result(chain_id: u32) -> ValidationResult<()> {
    check(config::MIN_CHAIN_ID <= chain_id <= config::MAX_CHAIN_ID, ValidationError::InvalidChainId)
}

pub open spec fn timeout_result(timeout_seconds: u64) -> ValidationResult<()> {
    check(
        config::MIN_TIMEOUT_SECONDS <= timeout_seconds <= config::MAX_TIMEOUT_SECONDS,
        ValidationError::InvalidTimeout,
    )
}

pub open spec fn string_length_result(s: Seq<u8>, max_length: u32) -> ValidationResult<()> {
    check(0 < s.len() <= max_length, ValidationError::InvalidStringLength)
}

/// Bytes whose Latin-1 character is alphabetic or numeric in Unicode.
pub open spec fn is_alphanumeric_byte(b: u8) -> bool {
    ||| 0x30 <= b <= 0x39
    ||| 0x41 <= b <= 0x5A
    ||| 0x61 <= b <= 0x7A
    ||| b == 0xAA
    ||| b == 0xB2
    ||| b == 0xB3
    ||| b == 0xB5
    ||| b == 0xB9
    ||| b == 0xBA
    ||| 0xBC <= b <= 0xBE
    ||| 0xC0 <= b <= 0xD6
    ||| 0xD8 <= b <= 0xF6
    ||| 0xF8 <= b
}

/// Bytes whose Latin-1 character is Unicode white space.
pub open spec fn is_whitespace_byte(b: u8) -> bool {
    ||| 0x09 <= b <= 0x0D
    ||| b == 0x20
    ||| b == 0x85
    ||| b == 0xA0
}

/// The punctuation accepted in names: `- _ . , ! ? @ # $ % & * + = :`.
pub open spec fn is_allowed_punctuation(b: u8) -> bool {
    ||| b == 0x2D
    ||| b == 0x5F
    ||| b == 0x2E
    ||| b == 0x2C
    ||| b == 0x21
    ||| b == 0x3F
    ||| b == 0x40
    ||| b == 0x23
    ||| b == 0x24
    ||| b == 0x25
    ||| b == 0x26
    ||| b == 0x2A
    ||| b == 0x2B
    ||| b == 0x3D
    ||| b == 0x3A
}

/// A byte accepted in a string: each byte is read as the Latin-1
/// character with that code.
pub open spec fn is_allowed_byte(b: u8) -> bool {
    is_alphanumeric_byte(b) || is_whitespace_byte(b) || is_allowed_punctuation(b)
}

pub open spec fn characters_result(s: Seq<u8>) -> ValidationResult<()> {
    check(
        forall|i: int| 0 <= i < s.len() ==> is_allowed_byte(#[trigger] s[i]),
        ValidationError::InvalidStringLength,
    )
}

pub open spec fn string_result(s: Seq<u8>, max_length: u32) -> ValidationResult<()> {
    if string_length_result(s, max_length) is Err {
        string_length_result(s, max_length)
    } else {
        characters_result(s)
    }
}

pub open spec fn cross_chain_address_result(b: Seq<u8>) -> ValidationResult<()> {
    if b.len() < 20 || b.len() > 32 {
        Err(ValidationError::InvalidBytesLength)
    } else if forall|i: int| 0 <= i < b.len() ==> #[trigger] b[i] == 0 {
        Err(ValidationError::InvalidAddressFormat)
    } else {
        Ok(())
    }
}

pub open spec fn bytes_length_result(b: Seq<u8>, min_len: u32, max_len: u32) -> ValidationResult<()> {
    check(min_len <= b.len() <= max_len, ValidationError::InvalidBytesLength)
}

pub open spec fn payload_result(b: Seq<u8>) -> ValidationResult<()> {
    if b.len() == 0 {
        Err(ValidationError::InvalidCrossChainData)
    } else if b.len() > config::MAX_PAYLOAD_SIZE {
        Err(ValidationError::InvalidBytesLength)
    } else {
        Ok(())
    }
}

/// Whether a reward issuance passes validation.
pub open spec fn reward_issuance_valid(
    blacklist: Seq<Address>,
    recipient: Seq<u8>,
    amount: i128,
    reward_type: Seq<u8>,
) -> bool {
    &&& !is_blacklisted(blacklist, recipient)
    &&& reward_amount_result(amount) is Ok
    &&& string_result(reward_type, config::MAX_STRING_LENGTH) is Ok
}

/// Whether a pool funding passes validation.
pub open spec fn pool_funding_valid(blacklist: Seq<Address>, funder: Seq<u8>, amount: i128) -> bool {
    &&& !is_blacklisted(blacklist, funder)
    &&& reward_amount_result(amount) is Ok
}

// ---------------------------------------------------------------------
// Checks
// ---------------------------------------------------------------------

/// Address validation utilities
pub struct AddressValidator;

impl AddressValidator {
    /// Validates address format; any address is well formed.
    pub fn validate_format(_address: &Address) -> (r: ValidationResult<()>)
        ensures
            r == Ok::<(), ValidationError>(()),
    {
        Ok(())
    }

    /// Rejects an address that occurs in the blacklist.
    pub fn check_blacklist(blacklist: &Vec<Address>, address: &Address) -> (r: ValidationResult<()>)
        ensures
            r == check(!is_blacklisted(blacklist@, address@), ValidationError::BlacklistedAddress),
    {
        let n = blacklist.len();
        let mut i: usize = 0;
        while i < n
            invariant
                n == blacklist.len(),
                i <= n,
                forall|j: int| 0 <= j < i ==> blacklist@[j]@ != address@,
            decreases n - i,
        {
            if blacklist[i].same_as(address) {
                return Err(ValidationError::BlacklistedAddress);
            }
            i = i + 1;
        }
        Ok(())
    }

    /// Comprehensive address validation
    pub fn validate(blacklist: &Vec<Address>, address: &Address) -> (r: ValidationResult<()>)
        ensures
            r == check(!is_blacklisted(blacklist@, address@), ValidationError::BlacklistedAddress),
    {
        Self::validate_format(address)?;
        Self::check_blacklist(blacklist, address)?;
        Ok(())
    }
}

/// Numerical validation utilities
pub struct NumberValidator;

impl NumberValidator {
    /// Validates amount within allowed range
    pub fn validate_amount(amount: i128) -> (r: ValidationResult<()>)
        ensures
            r == amount_result(amount),
    {
        if amount < config::MIN_AMOUNT {
            return Err(ValidationError::InvalidAmountRange);
        }
        if amount > config::MAX_AMOUNT {
            return Err(ValidationError::InvalidAmountRange);
        }
        Ok(())
    }

    /// Validates reward amount within allowed range
    pub fn validate_reward_amount(amount: i128) -> (r: ValidationResult<()>)
        ensures
            r == reward_amount_result(amount),
    {
        if amount < config::MIN_REWARD_AMOUNT {
            return Err(ValidationError::InvalidAmountRange);
        }
        if amount > config::MAX_REWARD_AMOUNT {
            return Err(ValidationError::InvalidAmountRange);
        }
        Ok(())
    }

    /// Validates reward rate within allowed range
    pub fn validate_reward_rate(rate: i128) -> (r: ValidationResult<()>)
        ensures
            r == reward_rate_result(rate),
    {
        if rate < 0 {
            return Err(ValidationError::InvalidAmountRange);
        }
        if rate > config::MAX_REWARD_RATE {
            return Err(ValidationError::InvalidAmountRange);
        }
        Ok(())
    }

    /// Validates signer count
    pub fn validate_signer_count(count: usize) -> (r: ValidationResult<()>)
        ensures
            r == signer_count_result(count),
    {
        if count == 0 {
            return Err(ValidationError::EmptySignersList);
        }
        if count < config::MIN_SIGNERS as usize {
            return Err(ValidationError::InvalidSignerCount);
        }
        if count > config::MAX_SIGNERS as usize {
            return Err(ValidationError::InvalidSignerCount);
        }
        Ok(())
    }

    /// Validates threshold against signer count
    pub fn validate_threshold(threshold: u32, signer_count: u32) -> (r: ValidationResult<()>)
        ensures
            r == threshold_result(threshold, signer_count),
    {
        if threshold < config::MIN_THRESHOLD {
            return Err(ValidationError::InvalidThreshold);
        }
        if threshold > signer_count {
            return Err(ValidationError::InvalidThreshold);
        }
        Ok(())
    }

    /// Validates chain ID
    pub fn validate_chain_id(chain_id: u32) -> (r: ValidationResult<()>)
        ensures
            r == chain_id_result(chain_id),
    {
        if chain_id < config::MIN_CHAIN_ID || chain_id > config::MAX_CHAIN_ID {
            return Err(ValidationError::InvalidChainId);
        }
        Ok(())
    }

    /// Validates timeout duration
    pub fn validate_timeout(timeout_seconds: u64) -> (r: ValidationResult<()>)
        ensures
            r == timeout_result(timeout_seconds),
    {
        if timeout_seconds < config::MIN_TIMEOUT_SECONDS {
            return Err(ValidationError::InvalidTimeout);
        }
        if timeout_seconds > config::MAX_TIMEOUT_SECONDS {
            return Err(ValidationError::InvalidTimeout);
        }
        Ok(())
    }
}

/// String validation utilities
pub struct StringValidator;

impl StringValidator {
    /// Validates string length
    pub fn validate_length(string: &Vec<u8>, max_length: u32) -> (r: ValidationResult<()>)
        ensures
            r == string_length_result(string@, max_length),
    {
        if string.len() == 0 {
            return Err(ValidationError::InvalidStringLength);
        }
        if string.len() > max_length as usize {
            return Err(ValidationError::InvalidStringLength);
        }
        Ok(())
    }

    /// Whether a byte is accepted in a string.
    pub fn is_allowed_byte(b: u8) -> (r: bool)
        ensures
            r == is_allowed_byte(b),
    {
        let alphanumeric = (0x30 <= b && b <= 0x39) || (0x41 <= b && b <= 0x5A) || (0x61 <= b
            && b <= 0x7A) || b == 0xAA || b == 0xB2 || b == 0xB3 || b == 0xB5 || b == 0xB9 || b
            == 0xBA || (0xBC <= b && b <= 0xBE) || (0xC0 <= b && b <= 0xD6) || (0xD8 <= b && b
            <= 0xF6) || 0xF8 <= b;
        let whitespace = (0x09 <= b && b <= 0x0D) || b == 0x20 || b == 0x85 || b == 0xA0;
        let punctuation = b == 0x2D || b == 0x5F || b == 0x2E || b == 0x2C || b == 0x21 || b
            == 0x3F || b == 0x40 || b == 0x23 || b == 0x24 || b == 0x25 || b == 0x26 || b == 0x2A
            || b == 0x2B || b == 0x3D || b == 0x3A;
        alphanumeric || whitespace || punctuation
    }

    /// Validates string contains only allowed characters
    pub fn validate_characters(string: &Vec<u8>) -> (r: ValidationResult<()>)
        ensures
            r == characters_result(string@),
    {
        let n = string.len();
        let mut i: usize = 0;
        while i < n
            invariant
                n == string.len(),
                i <= n,
                forall|j: int| 0 <= j < i ==> is_allowed_byte(#[trigger] string@[j]),
            decreases n - i,
        {
            if !Self::is_allowed_byte(string[i]) {
                assert(!is_allowed_byte(string@[i as int]));
                return Err(ValidationError::InvalidStringLength);
            }
            i = i + 1;
        }
        Ok(())
    }

    /// Comprehensive string validation
    pub fn validate(string: &Vec<u8>, max_length: u32) -> (r: ValidationResult<()>)
        ensures
            r == string_result(string@, max_length),
    {
        Self::validate_length(string, max_length)?;
        Self::validate_characters(string)?;
        Ok(())
    }
}

/// Bytes validation utilities
pub struct BytesValidator;

impl BytesValidator {
    /// Validates bytes for cross-chain addresses: 20 to 32 bytes, not all zero.
    pub fn validate_cross_chain_address(bytes: &Vec<u8>) -> (r: ValidationResult<()>)
        ensures
            r == cross_chain_address_result(bytes@),
    {
        if bytes.len() < 20 || bytes.len() > 32 {
            return Err(ValidationError::InvalidBytesLength);
        }
        let n = bytes.len();
        let mut i: usize = 0;
        while i < n
            invariant
                n == bytes.len(),
                20 <= n <= 32,
                i <= n,
                forall|j: int| 0 <= j < i ==> #[trigger] bytes@[j] == 0,
            decreases n - i,
        {
            if bytes[i] != 0 {
                assert(!(bytes@[i as int] == 0));
                return Ok(());
            }
            i = i + 1;
        }
        Err(ValidationError::InvalidAddressFormat)
    }

    /// Validates bytes for general use
    pub fn validate_length(bytes: &Vec<u8>, min_len: u32, max_len: u32) -> (r: ValidationResult<()>)
        ensures
            r == bytes_length_result(bytes@, min_len, max_len),
    {
        if bytes.len() < min_len as usize || bytes.len() > max_len as usize {
            return Err(ValidationError::InvalidBytesLength);
        }
        Ok(())
    }

    /// Validates packet payload (non-empty, within size limit)
    pub fn validate_payload(bytes: &Vec<u8>) -> (r: ValidationResult<()>)
        ensures
            r == payload_result(bytes@),
    {
        if bytes.len() == 0 {
            return Err(ValidationError::InvalidCrossChainData);
        }
        if bytes.len() > config::MAX_PAYLOAD_SIZE as usize {
            return Err(ValidationError::InvalidBytesLength);
        }
        Ok(())
    }
}

/// Parameter sanitization utilities
pub struct InputSanitizer;

impl InputSanitizer {
    /// Sanitizes reward amount to ensure it's within valid range
    pub fn sanitize_reward_amount(amount: i128) -> (r: ValidationResult<i128>)
        ensures
            r == (match reward_amount_result(amount) {
                Ok(_) => Ok::<i128, ValidationError>(amount),
                Err(e) => Err(e),
            }),
    {
        NumberValidator::validate_reward_amount(amount)?;
        Ok(amount)
    }

    /// Sanitizes reward rate to ensure it's within valid range
    pub fn sanitize_reward_rate(rate: i128) -> (r: ValidationResult<i128>)
        ensures
            r == (match reward_rate_result(rate) {
                Ok(_) => Ok::<i128, ValidationError>(rate),
                Err(e) => Err(e),
            }),
    {
        NumberValidator::validate_reward_rate(rate)?;
        Ok(rate)
    }
}

/// Rewards-specific validation utilities
pub struct RewardsValidator;

impl RewardsValidator {
    /// Validates reward issuance parameters; any failure is reported as
    /// `AmountMustBePositive`.
    pub fn validate_reward_issuance(
        blacklist: &Vec<Address>,
        recipient: &Address,
        amount: i128,
        reward_type: &Vec<u8>,
    ) -> (r: Result<(), RewardsError>)
        ensures
            r == (if reward_issuance_valid(blacklist@, recipient@, amount, reward_type@) {
                Ok::<(), RewardsError>(())
            } else {
                Err(RewardsError::AmountMustBePositive)
            }),
    {
        if AddressValidator::validate(blacklist, recipient).is_err() {
            return Err(RewardsError::AmountMustBePositive);
        }
        if InputSanitizer::sanitize_reward_amount(amount).is_err() {
            return Err(RewardsError::AmountMustBePositive);
        }
        if StringValidator::validate(reward_type, config::MAX_STRING_LENGTH).is_err() {
            return Err(RewardsError::AmountMustBePositive);
        }
        Ok(())
    }

    /// Validates reward pool funding; any failure is reported as
    /// `AmountMustBePositive`.
    pub fn validate_pool_funding(blacklist: &Vec<Address>, funder: &Address, amount: i128) -> (r:
        Result<(), RewardsError>)
        ensures
            r == (if pool_funding_valid(blacklist@, funder@, amount) {
                Ok::<(), RewardsError>(())
            } else {
                Err(RewardsError::AmountMustBePositive)
            }),
    {
        if AddressValidator::validate(blacklist, funder).is_err() {
            return Err(RewardsError::AmountMustBePositive);
        }
        if InputSanitizer::sanitize_reward_amount(amount).is_err() {
            return Err(RewardsError::AmountMustBePositive);
        }
        Ok(())
    }

    /// Validates reward rate setting: a rate out of range gives
    /// `RateCannotBeNegative`, an invalid reward type `AmountMustBePositive`.
    pub fn validate_reward_rate_setting(rate: i128, reward_type: &Vec<u8>) -> (r: Result<
        (),
        RewardsError,
    >)
        ensures
            r == (if reward_rate_result(rate) is Err {
                Err(RewardsError::RateCannotBeNegative)
            } else if string_result(reward_type@, config::MAX_STRING_LENGTH) is Err {
                Err(RewardsError::AmountMustBePositive)
            } else {
                Ok::<(), RewardsError>(())
            }),
    {
        if InputSanitizer::sanitize_reward_rate(rate).is_err() {
            return Err(RewardsError::RateCannotBeNegative);
        }
        if StringValidator::validate(reward_type, config::MAX_STRING_LENGTH).is_err() {
            return Err(RewardsError::AmountMustBePositive);
        }
        Ok(())
    }
}

} // verus!
