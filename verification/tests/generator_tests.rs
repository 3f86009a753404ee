//! Tests of the password generator: lengths, class membership, ambiguity
//! filtering, per-class guarantees, the symbol-density cap, the leading
//! character rule, and the custom-pool mode.

use pwgen2::charset::CharacterSets;
use pwgen2::config::PasswordConfig;
use pwgen2::generator::generate_password;

fn symbols() -> Vec<char> {
    CharacterSets::defaults().symbols.chars().collect()
}

#[test]
fn test_generate_password() {
    let config = PasswordConfig::new(16).unwrap();
    let password = generate_password(&config);

    assert_eq!(password.len(), 16);
}

#[test]
fn test_generate_password_with_symbols() {
    let config = PasswordConfig::new(16)
        .unwrap()
        .with_symbols(true)
        .with_avoid_ambiguous(true);
    let password = generate_password(&config);

    assert_eq!(password.len(), 16);
}

#[test]
fn test_generate_password_with_symbols_and_lowercase() {
    let config = PasswordConfig::new(16)
        .unwrap()
        .with_symbols(true)
        .with_lowercase(true)
        .with_avoid_ambiguous(true);
    let password = generate_password(&config);

    assert_eq!(password.len(), 16);
}

#[test]
fn test_generate_password_with_symbols_and_uppercase() {
    let config = PasswordConfig::new(16)
        .unwrap()
        .with_symbols(true)
        .with_uppercase(true)
        .with_avoid_ambiguous(true);
    let password = generate_password(&config);

    assert_eq!(password.len(), 16);
}

#[test]
fn test_generate_password_with_symbols_and_digits() {
    let config = PasswordConfig::new(16)
        .unwrap()
        .with_symbols(true)
        .with_digits(true)
        .with_avoid_ambiguous(true);
    let password = generate_password(&config);

    assert_eq!(password.len(), 16);
}

#[test]
fn test_generate_password_with_symbols_and_lowercase_and_uppercase() {
    let config = PasswordConfig::new(16)
        .unwrap()
        .with_symbols(true)
        .with_lowercase(true)
        .with_uppercase(true)
        .with_avoid_ambiguous(true);
    let password = generate_password(&config);

    assert_eq!(password.len(), 16);
}

#[test]
fn test_generate_password_with_symbols_and_lowercase_and_digits() {
    let config = PasswordConfig::new(16)
        .unwrap()
        .with_symbols(true)
        .with_lowercase(true)
        .with_digits(true)
        .with_avoid_ambiguous(true);
    let password = generate_password(&config);

    assert_eq!(password.len(), 16);
}

#[test]
fn test_password_does_not_start_with_symbol() {
    let config = PasswordConfig {
        length: 64,
        include_lowercase: true,
        include_uppercase: true,
        include_digits: true,
        include_symbols: true,
        avoid_ambiguous: false,
        require_from_each_set: true,
        custom_charset: None,
    };

    for _ in 0..1000 {
        let password = generate_password(&config);
        let symbols = symbols();
        assert!(
            !symbols.contains(&password.chars().next().unwrap()),
            "Password started with a symbol: {}",
            password
        );
    }
}

#[test]
fn length_is_exact_for_all_policies() {
    for length in [1u8, 2, 5, 10, 11, 63, 65] {
        let config = PasswordConfig::new(length)
            .unwrap()
            .with_avoid_ambiguous(false)
            .with_require_from_each_set(false);
        assert!(config.validate().is_ok());
        assert_eq!(generate_password(&config).chars().count(), length as usize);
    }
}

#[test]
fn characters_come_from_enabled_classes_only() {
    let config = PasswordConfig::new(24).unwrap().with_symbols(false);
    assert!(config.validate().is_ok());
    for _ in 0..100 {
        let password = generate_password(&config);
        assert!(password
            .chars()
            .all(|c| c.is_ascii_lowercase() || c.is_ascii_uppercase() || c.is_ascii_digit()));
    }
}

#[test]
fn ambiguous_characters_are_filtered_out() {
    let config = PasswordConfig::new(32).unwrap();
    assert!(config.avoid_ambiguous);
    for _ in 0..200 {
        let password = generate_password(&config);
        assert!(!password.chars().any(|c| "0O1Il5S".contains(c)), "{}", password);
    }
}

#[test]
fn every_enabled_class_is_represented() {
    let config = PasswordConfig::new(4).unwrap();
    assert!(config.require_from_each_set);
    let symbols = symbols();
    for _ in 0..200 {
        let password = generate_password(&config);
        assert!(password.chars().any(|c| c.is_ascii_lowercase()));
        assert!(password.chars().any(|c| c.is_ascii_uppercase()));
        assert!(password.chars().any(|c| c.is_ascii_digit()));
        assert!(password.chars().any(|c| symbols.contains(&c)));
    }
}

#[test]
fn symbol_count_stays_under_the_cap() {
    let symbols = symbols();
    for (length, cap) in [(10u8, 1usize), (18, 2), (20, 2), (21, 3), (64, 7)] {
        let config = PasswordConfig::new(length).unwrap();
        for _ in 0..50 {
            let password = generate_password(&config);
            let count = password.chars().filter(|c| symbols.contains(c)).count();
            assert!(count <= cap, "{} symbols in {:?} (cap {})", count, password, cap);
            assert!(count >= 1, "no symbol in {:?}", password);
        }
    }
}

#[test]
fn no_symbols_appear_when_the_class_is_off() {
    let symbols = symbols();
    let config = PasswordConfig::new(30).unwrap().with_symbols(false);
    for _ in 0..50 {
        let password = generate_password(&config);
        assert!(!password.chars().any(|c| symbols.contains(&c)));
    }
}

#[test]
fn pin_is_all_digits() {
    let config = PasswordConfig::pin(4).unwrap();
    assert!(config.validate().is_ok());
    for _ in 0..100 {
        let password = generate_password(&config);
        assert_eq!(password.len(), 4);
        assert!(password.chars().all(|c| c.is_ascii_digit()), "{}", password);
    }
}

#[test]
fn alphanumeric_passwords_match_their_classes() {
    let config = PasswordConfig::alphanumeric(18).unwrap();
    assert!(config.validate().is_ok());
    for _ in 0..100 {
        let password = generate_password(&config);
        assert_eq!(password.chars().count(), 18);
        assert!(password.chars().all(|c| c.is_ascii_alphanumeric()), "{}", password);
    }
}

#[test]
fn symbols_only_config_generates_symbols() {
    let config = PasswordConfig {
        length: 5,
        include_lowercase: false,
        include_uppercase: false,
        include_digits: false,
        include_symbols: true,
        avoid_ambiguous: true,
        require_from_each_set: true,
        custom_charset: None,
    };
    assert!(config.validate().is_ok());
    let symbols = symbols();
    for _ in 0..50 {
        let password = generate_password(&config);
        assert_eq!(password.len(), 5);
        assert!(password.chars().all(|c| symbols.contains(&c)), "{}", password);
    }
}

#[test]
fn custom_charset_draws_from_the_pool_alone() {
    let pool: Vec<char> = "abc".chars().collect();
    let config = PasswordConfig::custom(40, pool).unwrap();
    assert!(config.validate().is_ok());
    for _ in 0..50 {
        let password = generate_password(&config);
        assert_eq!(password.len(), 40);
        assert!(password.chars().all(|c| c == 'a' || c == 'b' || c == 'c'), "{}", password);
    }
}

#[test]
fn custom_charset_with_one_character_is_constant() {
    let pool: Vec<char> = "x".chars().collect();
    let config = PasswordConfig::custom(6, pool).unwrap();
    assert_eq!(generate_password(&config), "xxxxxx");
}
