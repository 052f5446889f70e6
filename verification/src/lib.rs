//! Validation of bearer tokens (JSON Web Tokens) against the key set that
//! their issuer publishes.
//!
//! One validation runs in three stages: the token's header is inspected for a
//! key identifier, the identifier is resolved to a public key in the issuer's
//! key set, and the token's signature and claims are checked against that key.
//! The library makes every decision of the three stages; fetching the key set
//! and reading the clock are left to the caller.

pub mod claims;
pub mod der;
pub mod error;
pub mod foreign;
pub mod keys;
pub mod pipeline;
pub mod token;
pub mod validate;
