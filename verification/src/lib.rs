//! Core of a password and PIN generator.
//!
//! A `PasswordConfig` describes what a password must look like (length,
//! enabled character classes, ambiguity filtering, per-class minimums) and is
//! checked by `validate`. `generate_password` consumes a validated
//! configuration and produces one password from a cryptographically secure
//! random source. Hashing of generated passwords is delegated to outside
//! crates behind thin wrappers.

pub mod action;
pub mod charset;
pub mod config;
pub mod generator;
pub mod hash;
pub mod rng;
pub mod text;
