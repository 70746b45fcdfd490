//! A credential-authentication core: usernames and passwords are exchanged
//! for accounts and bearer tokens, through three pluggable capabilities —
//! credential storage, password hashing, and token issuance.
//!
//! The `auth` module holds the capability interfaces and the four verified
//! operations over them: signup, signin, token verification, and an
//! existence check. `storers` holds the verified in-memory store, `hashers`
//! the SHA-384 hasher, and `tokeners` the HMAC-SHA-384 token issuer; the
//! latter two call their outside crates through trusted wrappers.

pub mod auth;
pub mod errors;
pub mod hashers;
pub mod models;
pub mod storers;
pub mod tokeners;
