//! Tests of configuration construction and validation: the constructors'
//! policies, every validation error on an input that provokes it, the
//! idempotence of validation, and the error messages.

use pwgen2::config::{PasswordConfig, PasswordConfigError};

#[test]
fn default_policy_fields() {
    let config = PasswordConfig::default();
    assert_eq!(config.length, 18);
    assert!(config.include_lowercase);
    assert!(config.include_uppercase);
    assert!(config.include_digits);
    assert!(config.include_symbols);
    assert!(config.avoid_ambiguous);
    assert!(config.require_from_each_set);
    assert!(config.custom_charset.is_none());
}

#[test]
fn new_rejects_zero_length() {
    assert!(matches!(
        PasswordConfig::new(0),
        Err(PasswordConfigError::ZeroLength)
    ));
}

#[test]
fn new_keeps_the_default_policy() {
    let config = PasswordConfig::new(12).unwrap();
    assert_eq!(config.length, 12);
    assert!(config.include_symbols);
    assert!(config.avoid_ambiguous);
    assert!(config.require_from_each_set);
}

#[test]
fn pin_rejects_short_lengths() {
    assert!(matches!(
        PasswordConfig::pin(3),
        Err(PasswordConfigError::PinLengthTooShort)
    ));
    assert!(matches!(
        PasswordConfig::pin(0),
        Err(PasswordConfigError::PinLengthTooShort)
    ));
}

#[test]
fn pin_policy_fields() {
    let config = PasswordConfig::pin(6).unwrap();
    assert_eq!(config.length, 6);
    assert!(!config.include_lowercase);
    assert!(!config.include_uppercase);
    assert!(config.include_digits);
    assert!(!config.include_symbols);
    assert!(!config.avoid_ambiguous);
    assert!(!config.require_from_each_set);
    assert!(config.validate().is_ok());
}

#[test]
fn alphanumeric_policy_fields() {
    let config = PasswordConfig::alphanumeric(18).unwrap();
    assert_eq!(config.length, 18);
    assert!(config.include_lowercase);
    assert!(config.include_uppercase);
    assert!(config.include_digits);
    assert!(!config.include_symbols);
    assert!(config.avoid_ambiguous);
    assert!(config.require_from_each_set);
    assert!(config.validate().is_ok());
}

#[test]
fn builders_set_their_fields() {
    let config = PasswordConfig::new(10)
        .unwrap()
        .with_lowercase(false)
        .with_uppercase(false)
        .with_digits(true)
        .with_symbols(false)
        .with_avoid_ambiguous(false)
        .with_require_from_each_set(false);
    assert!(!config.include_lowercase);
    assert!(!config.include_uppercase);
    assert!(config.include_digits);
    assert!(!config.include_symbols);
    assert!(!config.avoid_ambiguous);
    assert!(!config.require_from_each_set);
}

#[test]
fn validate_reports_zero_length() {
    let mut config = PasswordConfig::default();
    config.length = 0;
    assert!(matches!(
        config.validate(),
        Err(PasswordConfigError::ZeroLength)
    ));
}

#[test]
fn validate_reports_no_character_sets() {
    let config = PasswordConfig::new(5)
        .unwrap()
        .with_lowercase(false)
        .with_uppercase(false)
        .with_digits(false)
        .with_symbols(false);
    assert!(matches!(
        config.validate(),
        Err(PasswordConfigError::NoCharacterSetsEnabled)
    ));
}

#[test]
fn validate_reports_length_too_short_for_sets() {
    let config = PasswordConfig::new(3).unwrap();
    assert_eq!(
        config.validate(),
        Err(PasswordConfigError::LengthTooShortForSets {
            length: 3,
            sets_count: 4
        })
    );
}

#[test]
fn length_too_short_is_waived_without_the_requirement() {
    let config = PasswordConfig::new(3)
        .unwrap()
        .with_require_from_each_set(false);
    assert!(config.validate().is_ok());
}

#[test]
fn validate_reports_not_enough_available_characters() {
    // The default policy offers 25 + 23 + 7 + 10 = 65 distinct characters
    // once ambiguous ones are removed.
    let config = PasswordConfig::new(66).unwrap();
    assert_eq!(
        config.validate(),
        Err(PasswordConfigError::NotEnoughAvailableCharacters {
            length: 66,
            available: 65
        })
    );
    assert!(PasswordConfig::new(65).unwrap().validate().is_ok());

    // Alphanumeric: 25 + 23 + 7 = 55.
    let config = PasswordConfig::alphanumeric(56).unwrap();
    assert_eq!(
        config.validate(),
        Err(PasswordConfigError::NotEnoughAvailableCharacters {
            length: 56,
            available: 55
        })
    );
}

#[test]
fn availability_is_not_checked_without_filtering() {
    let config = PasswordConfig::new(200).unwrap().with_avoid_ambiguous(false);
    assert!(config.validate().is_ok());
}

#[test]
fn symbols_only_length_five_validates() {
    let config = PasswordConfig::new(5)
        .unwrap()
        .with_lowercase(false)
        .with_uppercase(false)
        .with_digits(false)
        .with_symbols(true);
    assert!(config.validate().is_ok());
}

#[test]
fn validate_is_idempotent() {
    let configs = [
        PasswordConfig::new(3).unwrap(),
        PasswordConfig::new(18).unwrap(),
        PasswordConfig::new(66).unwrap(),
        PasswordConfig::pin(8).unwrap(),
    ];
    for config in configs {
        assert_eq!(config.validate(), config.validate());
    }
}

#[test]
fn custom_validates_on_its_pool_alone() {
    let pool: Vec<char> = "xyz".chars().collect();
    let config = PasswordConfig::custom(9, pool).unwrap();
    assert!(config.validate().is_ok());

    let empty = PasswordConfig::custom(9, Vec::new()).unwrap();
    assert!(matches!(
        empty.validate(),
        Err(PasswordConfigError::NoCharacterSetsEnabled)
    ));

    let zero = PasswordConfig::custom(0, "abc".chars().collect()).unwrap();
    assert!(matches!(
        zero.validate(),
        Err(PasswordConfigError::ZeroLength)
    ));
}

#[test]
fn error_messages_are_exact() {
    assert_eq!(
        PasswordConfigError::ZeroLength.message(),
        "Password length must be greater than 0."
    );
    assert_eq!(
        PasswordConfigError::NoCharacterSetsEnabled.message(),
        "At least one character set must be included."
    );
    assert_eq!(
        PasswordConfigError::LengthTooShortForSets {
            length: 3,
            sets_count: 4
        }
        .message(),
        "Password length (3) must be at least equal to the number of required character sets (4)."
    );
    assert_eq!(
        PasswordConfigError::NotEnoughAvailableCharacters {
            length: 200,
            available: 65
        }
        .message(),
        "Password length (200) is too long given the restricted character set (65 available characters after avoiding ambiguous ones)."
    );
    assert_eq!(
        PasswordConfigError::PinLengthTooShort.message(),
        "PIN length must be at least 4 characters."
    );
}

#[test]
fn cloned_configs_are_independent() {
    let config = PasswordConfig::new(18).unwrap();
    let mut copy = config.clone();
    copy.length = 4;
    assert_eq!(config.length, 18);
    assert_eq!(copy.length, 4);
}
