//! Biscuit authorization tokens.
//!
//! A biscuit token is a chain of cryptographically signed blocks, each
//! carrying Datalog facts, rules and checks. A token can be attenuated by
//! appending further blocks (possibly contributed by a third party), or
//! sealed so that no block can be appended any more. An authorizer combines
//! a token with local facts, rules, checks and ordered allow/deny policies
//! to reach an authorization decision.
//!
//! The cryptographic primitives (Ed25519 signatures, the wire format and the
//! Datalog engine) are provided by the `biscuit_auth` crate; this crate
//! specifies their observable behaviour and verifies the logic built on top
//! of them.

pub mod authorizer;
pub mod builder;
pub mod crypto;
pub mod datalog;
pub mod encoding;
pub mod errors;
pub mod third_party;
pub mod token;
