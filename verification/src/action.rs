//! One command-line request, reduced to plain values, and the decisions it
//! implies: which password policy to build and which hash, if any, to apply
//! to each generated password. Running the request (spawning workers,
//! printing) is the caller's business.

use vstd::prelude::*;

use crate::config::{
    spec_alphanumeric_config, spec_default_config, spec_pin_config, PasswordConfig,
    PasswordConfigError,
};
use crate::hash::{
    bcrypt_match, hash_bcrypt, hash_pbkdf2, hash_sha512, pbkdf2_match, sha512_match,
};

verus! {

/// One request: how many passwords of which shape to generate, and whether
/// and how to hash and print them.
#[derive(Debug, Clone)]
pub enum Action {
    Run {
        /// Length of each password.
        pw_length: u8,
        /// How many passwords to generate.
        num_pw: usize,
        /// Generate digit-only PINs.
        pin: bool,
        /// Generate alphanumeric passwords.
        alphanumeric: bool,
        /// Hash each password with bcrypt.
        bcrypt: bool,
        /// Hash each password with PBKDF2.
        pbkdf2: bool,
        /// Hash each password with SHA-512-crypt.
        sha512: bool,
        /// Draw from this pool instead of the character classes.
        charset: Option<Vec<char>>,
        /// Print the results as a JSON array.
        json: bool,
    },
}

impl Action {
    /// The password policy this request asks for: the PIN policy when `pin`
    /// is set, else the alphanumeric policy when `alphanumeric` is set, else
    /// a custom pool when a charset is given, else the default policy.
    pub fn password_config(&self) -> (r: Result<PasswordConfig, PasswordConfigError>)
        ensures
            self->pin ==> r == (if self->pw_length < 4 {
                Err::<PasswordConfig, PasswordConfigError>(PasswordConfigError::PinLengthTooShort)
            } else {
                Ok::<PasswordConfig, PasswordConfigError>(spec_pin_config(self->pw_length))
            }),
            !self->pin && self->alphanumeric ==> r == Ok::<PasswordConfig, PasswordConfigError>(
                spec_alphanumeric_config(self->pw_length),
            ),
            !self->pin && !self->alphanumeric && self->charset is Some ==> (r matches Ok(c)
                && c.length == self->pw_length && !c.include_lowercase && !c.include_uppercase
                && !c.include_digits && !c.include_symbols && !c.avoid_ambiguous
                && !c.require_from_each_set && (c.custom_charset matches Some(cs) && cs@
                == self->charset->Some_0@)),
            !self->pin && !self->alphanumeric && self->charset is None ==> r == (if self->pw_length
                == 0 {
                Err::<PasswordConfig, PasswordConfigError>(PasswordConfigError::ZeroLength)
            } else {
                Ok::<PasswordConfig, PasswordConfigError>(
                    (PasswordConfig { length: self->pw_length, ..spec_default_config() }),
                )
            }),
    {
        match self {
            Action::Run { pw_length, pin, alphanumeric, charset, .. } => {
                if *pin {
                    PasswordConfig::pin(*pw_length)
                } else if *alphanumeric {
                    PasswordConfig::alphanumeric(*pw_length)
                } else {
                    match charset {
                        Some(cs) => {
                            let pool = cs.clone();
                            proof {
                                assert(pool@ =~= cs@);
                            }
                            PasswordConfig::custom(*pw_length, pool)
                        },
                        None => PasswordConfig::new(*pw_length),
                    }
                }
            },
        }
    }

    /// The digest of one generated password, as the request's flags ask:
    /// bcrypt first, then PBKDF2, then SHA-512-crypt. `None` when no hashing
    /// was asked for, or when the chosen algorithm failed; SHA-512-crypt
    /// cannot fail, so under its flag a digest is always produced. Whatever
    /// digest comes back verifies against the password under the chosen
    /// algorithm.
    pub fn digest_for(&self, password: &str) -> (r: Option<String>)
        ensures
            !self->bcrypt && !self->pbkdf2 && !self->sha512 ==> r is None,
            self->bcrypt ==> (r matches Some(digest) ==> digest@.len() == 60
                && bcrypt_match(password@, digest@)),
            !self->bcrypt && self->pbkdf2 ==> (r matches Some(digest) ==> pbkdf2_match(
                password@,
                digest@,
            )),
            !self->bcrypt && !self->pbkdf2 && self->sha512 ==> r is Some,
            !self->bcrypt && !self->pbkdf2 && self->sha512 ==> (r matches Some(digest)
                ==> sha512_match(password@, digest@)),
    {
        match self {
            Action::Run { bcrypt, pbkdf2, sha512, .. } => {
                if *bcrypt {
                    match hash_bcrypt(password) {
                        Ok(digest) => Some(digest),
                        Err(_) => None,
                    }
                } else if *pbkdf2 {
                    match hash_pbkdf2(password) {
                        Ok(digest) => Some(digest),
                        Err(_) => None,
                    }
                } else if *sha512 {
                    match hash_sha512(password) {
                        Ok(digest) => Some(digest),
                        Err(_) => None,
                    }
                } else {
                    None
                }
            },
        }
    }
}

} // verus!
