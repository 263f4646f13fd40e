//! Tokens, constants, and the outside sources of time and randomness.

pub mod auth;
pub mod constants;
pub mod random;
pub mod text;
