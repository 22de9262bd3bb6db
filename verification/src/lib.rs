//! Two authorization primitives for an account-abstraction layer on a ledger
//! platform:
//!
//! - a signer authenticator (`account`), which substitutes an Ed25519
//!   signature check for the platform's native signature scheme and exposes an
//!   owner-gated self-upgrade, and
//! - a domain-authentication verifier (`web_auth`), which requires that the
//!   identities named in a request's arguments each authorize the current
//!   call.
//!
//! The host platform (durable storage, authorization dispatch, code
//! replacement) is an external collaborator: each component here is a pure
//! decision core over its loaded configuration and the call's inputs, and the
//! host performs the actions those decisions call for.

pub mod account;
pub mod crypto;
pub mod errors;
pub mod web_auth;
