//! Password configurations and their validation rules.
//!
//! A configuration is built once, validated, and then handed (possibly
//! cloned) to the generator. Validation is a pure function of the
//! configuration: it checks that the length is positive, that at least one
//! character class is enabled, that the length can seat one character of
//! each enabled class when that is required, and that ambiguity filtering
//! leaves enough distinct characters.

use vstd::prelude::*;

use crate::charset::{
    digit_chars, digit_len, lowercase_chars, lowercase_len, symbol_chars, symbol_len,
    uppercase_chars, uppercase_len,
};
use crate::text::{append_str, spec_decimal, u8_string};

verus! {

/// Why a configuration was rejected.
#[derive(Debug, Clone, Copy, PartialEq, Eq, Structural)]
pub enum PasswordConfigError {
    /// The requested length is zero.
    ZeroLength,
    /// Every character class is disabled.
    NoCharacterSetsEnabled,
    /// One character of each enabled class is required, but the length
    /// cannot seat them all.
    LengthTooShortForSets { length: u8, sets_count: u8 },
    /// Ambiguity filtering left fewer distinct characters than the length.
    NotEnoughAvailableCharacters { length: u8, available: u8 },
    /// A PIN must be at least four digits long.
    PinLengthTooShort,
}

/// The text that describes a validation error to a person.
pub open spec fn spec_error_message(e: PasswordConfigError) -> Seq<char> {
    match e {
        PasswordConfigError::ZeroLength => "Password length must be greater than 0."@,
        PasswordConfigError::NoCharacterSetsEnabled => "At least one character set must be included."@,
        PasswordConfigError::LengthTooShortForSets { length, sets_count } => "Password length ("@
            + spec_decimal(length as int)
            + ") must be at least equal to the number of required character sets ("@ + spec_decimal(
            sets_count as int,
        ) + ")."@,
        PasswordConfigError::NotEnoughAvailableCharacters { length, available } => "Password length ("@
            + spec_decimal(length as int) + ") is too long given the restricted character set ("@
            + spec_decimal(available as int)
            + " available characters after avoiding ambiguous ones)."@,
        PasswordConfigError::PinLengthTooShort => "PIN length must be at least 4 characters."@,
    }
}

impl PasswordConfigError {
    /// The human-readable description of the error.
    pub fn message(&self) -> (m: String)
        ensures
            m@ == spec_error_message(*self),
    {
        let mut m = String::new();
        match self {
            PasswordConfigError::ZeroLength => {
                append_str(&mut m, "Password length must be greater than 0.");
            },
            PasswordConfigError::NoCharacterSetsEnabled => {
                append_str(&mut m, "At least one character set must be included.");
            },
            PasswordConfigError::LengthTooShortForSets { length, sets_count } => {
                append_str(&mut m, "Password length (");
                let length_text = u8_string(*length);
                append_str(&mut m, length_text.as_str());
                append_str(
                    &mut m,
                    ") must be at least equal to the number of required character sets (",
                );
                let sets_text = u8_string(*sets_count);
                append_str(&mut m, sets_text.as_str());
                append_str(&mut m, ").");
            },
            PasswordConfigError::NotEnoughAvailableCharacters { length, available } => {
                append_str(&mut m, "Password length (");
                let length_text = u8_string(*length);
                append_str(&mut m, length_text.as_str());
                append_str(&mut m, ") is too long given the restricted character set (");
                let available_text = u8_string(*available);
                append_str(&mut m, available_text.as_str());
                append_str(&mut m, " available characters after avoiding ambiguous ones).");
            },
            PasswordConfigError::PinLengthTooShort => {
                append_str(&mut m, "PIN length must be at least 4 characters.");
            },
        }
        m
    }
}

/// What a generated password must look like.
#[derive(Debug, Clone)]
pub struct PasswordConfig {
    /// Length of the password to generate.
    pub length: u8,
    /// Include lowercase letters (a-z).
    pub include_lowercase: bool,
    /// Include uppercase letters (A-Z).
    pub include_uppercase: bool,
    /// Include decimal digits (0-9).
    pub include_digits: bool,
    /// Include symbol characters.
    pub include_symbols: bool,
    /// Filter visually ambiguous characters (0O1Il5S) out of the
    /// alphanumeric classes.
    pub avoid_ambiguous: bool,
    /// Guarantee at least one character of each enabled class.
    pub require_from_each_set: bool,
    /// When set, draw uniformly from this pool instead of the classes; the
    /// class flags and the policies above do not apply.
    pub custom_charset: Option<Vec<char>>,
}

/// How many character classes the configuration enables.
pub open spec fn spec_sets_count(c: PasswordConfig) -> int {
    (if c.include_lowercase {
        1int
    } else {
        0int
    }) + (if c.include_uppercase {
        1int
    } else {
        0int
    }) + (if c.include_digits {
        1int
    } else {
        0int
    }) + (if c.include_symbols {
        1int
    } else {
        0int
    })
}

/// How many distinct non-symbol characters the enabled classes offer after
/// ambiguity filtering.
pub open spec fn spec_non_symbol_len(c: PasswordConfig) -> int {
    (if c.include_lowercase {
        lowercase_len(c.avoid_ambiguous)
    } else {
        0int
    }) + (if c.include_uppercase {
        uppercase_len(c.avoid_ambiguous)
    } else {
        0int
    }) + (if c.include_digits {
        digit_len(c.avoid_ambiguous)
    } else {
        0int
    })
}

/// How many distinct characters the enabled classes offer in all.
pub open spec fn spec_available(c: PasswordConfig) -> int {
    spec_non_symbol_len(c) + (if c.include_symbols {
        symbol_len()
    } else {
        0int
    })
}

/// The validation verdict, as a function of the configuration alone.
pub open spec fn spec_validate(c: PasswordConfig) -> Result<(), PasswordConfigError> {
    if c.length == 0 {
        Err(PasswordConfigError::ZeroLength)
    } else if c.custom_charset is Some {
        if c.custom_charset->Some_0@.len() == 0 {
            Err(PasswordConfigError::NoCharacterSetsEnabled)
        } else {
            Ok(())
        }
    } else if spec_sets_count(c) == 0 {
        Err(PasswordConfigError::NoCharacterSetsEnabled)
    } else if c.require_from_each_set && (c.length as int) < spec_sets_count(c) {
        Err(
            PasswordConfigError::LengthTooShortForSets {
                length: c.length,
                sets_count: spec_sets_count(c) as u8,
            },
        )
    } else if c.avoid_ambiguous && spec_available(c) < c.length as int {
        Err(
            PasswordConfigError::NotEnoughAvailableCharacters {
                length: c.length,
                available: spec_available(c) as u8,
            },
        )
    } else {
        Ok(())
    }
}

/// A configuration the generator accepts.
pub open spec fn is_valid(c: PasswordConfig) -> bool {
    spec_validate(c) == Ok::<(), PasswordConfigError>(())
}

/// The default policy: 18 characters, all four classes, ambiguous characters
/// avoided, one character of each class required.
pub open spec fn spec_default_config() -> PasswordConfig {
    PasswordConfig {
        length: 18,
        include_lowercase: true,
        include_uppercase: true,
        include_digits: true,
        include_symbols: true,
        avoid_ambiguous: true,
        require_from_each_set: true,
        custom_charset: None,
    }
}

/// The PIN policy for a given length: digits only, nothing filtered.
pub open spec fn spec_pin_config(length: u8) -> PasswordConfig {
    PasswordConfig {
        length,
        include_lowercase: false,
        include_uppercase: false,
        include_digits: true,
        include_symbols: false,
        avoid_ambiguous: false,
        require_from_each_set: false,
        custom_charset: None,
    }
}

/// The alphanumeric policy for a given length: letters and digits, ambiguous
/// characters avoided, one character of each class required.
pub open spec fn spec_alphanumeric_config(length: u8) -> PasswordConfig {
    PasswordConfig {
        length,
        include_lowercase: true,
        include_uppercase: true,
        include_digits: true,
        include_symbols: false,
        avoid_ambiguous: true,
        require_from_each_set: true,
        custom_charset: None,
    }
}

impl Default for PasswordConfig {
    /// The default policy, as `spec_default_config` describes it.
    fn default() -> (c: Self)
        ensures
            c == spec_default_config(),
    {
        PasswordConfig {
            length: 18,
            include_lowercase: true,
            include_uppercase: true,
            include_digits: true,
            include_symbols: true,
            avoid_ambiguous: true,
            require_from_each_set: true,
            custom_charset: None,
        }
    }
}

impl PasswordConfig {
    /// The default policy with the given length; a zero length is rejected.
    pub fn new(length: u8) -> (r: Result<PasswordConfig, PasswordConfigError>)
        ensures
            r == if length == 0 {
                Err::<PasswordConfig, PasswordConfigError>(PasswordConfigError::ZeroLength)
            } else {
                Ok::<PasswordConfig, PasswordConfigError>(
                    (PasswordConfig { length, ..spec_default_config() }),
                )
            },
    {
        if length == 0 {
            return Err(PasswordConfigError::ZeroLength);
        }
        let mut c = PasswordConfig::default();
        c.length = length;
        Ok(c)
    }

    /// The PIN policy with the given length; lengths below four are rejected.
    pub fn pin(length: u8) -> (r: Result<PasswordConfig, PasswordConfigError>)
        ensures
            r == if length < 4 {
                Err::<PasswordConfig, PasswordConfigError>(PasswordConfigError::PinLengthTooShort)
            } else {
                Ok::<PasswordConfig, PasswordConfigError>(spec_pin_config(length))
            },
    {
        if length < 4 {
            return Err(PasswordConfigError::PinLengthTooShort);
        }
        Ok(
            PasswordConfig {
                length,
                include_lowercase: false,
                include_uppercase: false,
                include_digits: true,
                include_symbols: false,
                avoid_ambiguous: false,
                require_from_each_set: false,
                custom_charset: None,
            },
        )
    }

    /// The alphanumeric policy with the given length.
    pub fn alphanumeric(length: u8) -> (r: Result<PasswordConfig, PasswordConfigError>)
        ensures
            r == Ok::<PasswordConfig, PasswordConfigError>(spec_alphanumeric_config(length)),
    {
        Ok(
            PasswordConfig {
                length,
                include_lowercase: true,
                include_uppercase: true,
                include_digits: true,
                include_symbols: false,
                avoid_ambiguous: true,
                require_from_each_set: true,
                custom_charset: None,
            },
        )
    }

    /// A configuration that draws uniformly from a caller-supplied pool.
    pub fn custom(length: u8, charset: Vec<char>) -> (r: Result<
        PasswordConfig,
        PasswordConfigError,
    >)
        ensures
            r matches Ok(c) && c.length == length && !c.include_lowercase && !c.include_uppercase
                && !c.include_digits && !c.include_symbols && !c.avoid_ambiguous
                && !c.require_from_each_set && (c.custom_charset matches Some(cs) && cs@
                == charset@),
    {
        Ok(
            PasswordConfig {
                length,
                include_lowercase: false,
                include_uppercase: false,
                include_digits: false,
                include_symbols: false,
                avoid_ambiguous: false,
                require_from_each_set: false,
                custom_charset: Some(charset),
            },
        )
    }

    /// The same configuration with lowercase letters switched on or off.
    pub fn with_lowercase(self, enabled: bool) -> (r: PasswordConfig)
        ensures
            r == (PasswordConfig { include_lowercase: enabled, ..self }),
    {
        let mut c = self;
        c.include_lowercase = enabled;
        c
    }

    /// The same configuration with uppercase letters switched on or off.
    pub fn with_uppercase(self, enabled: bool) -> (r: PasswordConfig)
        ensures
            r == (PasswordConfig { include_uppercase: enabled, ..self }),
    {
        let mut c = self;
        c.include_uppercase = enabled;
        c
    }

    /// The same configuration with digits switched on or off.
    pub fn with_digits(self, enabled: bool) -> (r: PasswordConfig)
        ensures
            r == (PasswordConfig { include_digits: enabled, ..self }),
    {
        let mut c = self;
        c.include_digits = enabled;
        c
    }

    /// The same configuration with symbols switched on or off.
    pub fn with_symbols(self, enabled: bool) -> (r: PasswordConfig)
        ensures
            r == (PasswordConfig { include_symbols: enabled, ..self }),
    {
        let mut c = self;
        c.include_symbols = enabled;
        c
    }

    /// The same configuration with ambiguity filtering switched on or off.
    pub fn with_avoid_ambiguous(self, avoid: bool) -> (r: PasswordConfig)
        ensures
            r == (PasswordConfig { avoid_ambiguous: avoid, ..self }),
    {
        let mut c = self;
        c.avoid_ambiguous = avoid;
        c
    }

    /// The same configuration with the per-class requirement switched on or
    /// off.
    pub fn with_require_from_each_set(self, require: bool) -> (r: PasswordConfig)
        ensures
            r == (PasswordConfig { require_from_each_set: require, ..self }),
    {
        let mut c = self;
        c.require_from_each_set = require;
        c
    }

    /// The validation verdict for this configuration. The result is a pure
    /// function of the configuration: validating never changes the
    /// configuration, and validating twice returns the same verdict.
    pub fn validate(&self) -> (r: Result<(), PasswordConfigError>)
        ensures
            r == spec_validate(*self),
    {
        if self.length == 0 {
            return Err(PasswordConfigError::ZeroLength);
        }
        match &self.custom_charset {
            Some(cs) => {
                if cs.len() == 0 {
                    Err(PasswordConfigError::NoCharacterSetsEnabled)
                } else {
                    Ok(())
                }
            },
            None => {
                let sets_count: u8 = (if self.include_lowercase {
                    1u8
                } else {
                    0u8
                }) + (if self.include_uppercase {
                    1u8
                } else {
                    0u8
                }) + (if self.include_digits {
                    1u8
                } else {
                    0u8
                }) + (if self.include_symbols {
                    1u8
                } else {
                    0u8
                });
                if sets_count == 0 {
                    return Err(PasswordConfigError::NoCharacterSetsEnabled);
                }
                if self.require_from_each_set && self.length < sets_count {
                    return Err(
                        PasswordConfigError::LengthTooShortForSets {
                            length: self.length,
                            sets_count,
                        },
                    );
                }
                if self.avoid_ambiguous {
                    let mut available: usize = 0;
                    if self.include_lowercase {
                        available += lowercase_chars(true).len();
                    }
                    if self.include_uppercase {
                        available += uppercase_chars(true).len();
                    }
                    if self.include_digits {
                        available += digit_chars(true).len();
                    }
                    if self.include_symbols {
                        available += symbol_chars().len();
                    }
                    if available < self.length as usize {
                        return Err(
                            PasswordConfigError::NotEnoughAvailableCharacters {
                                length: self.length,
                                available: available as u8,
                            },
                        );
                    }
                }
                Ok(())
            },
        }
    }
}

/// The validation verdict depends on the configuration value alone: two
/// equal configurations always validate the same way, so validating a
/// configuration twice yields the same result.
pub proof fn lemma_validate_deterministic(c1: PasswordConfig, c2: PasswordConfig)
    requires
        c1 == c2,
    ensures
        spec_validate(c1) == spec_validate(c2),
{
}

} // verus!
