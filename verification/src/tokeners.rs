//! The JWT token issuer: claims are account ids, signed with an
//! HMAC-SHA-384 key established at construction.

use vstd::prelude::*;
use vstd::string::StringSliceAdditionalSpecFns;

use crate::auth::Tokener;
use crate::errors::{Error, FAILED_TO_SIGN_CLAIM, FAILED_TO_VERIFY_TOKEN};

use hmac::Mac;
use jwt::{SignWithKey, VerifyWithKey};

verus! {

/// The identity a token carries: an account id.
#[derive(Debug)]
pub struct UID(pub i32);

/// The JWT an HMAC-SHA-384 key and an identity determine: the fixed header,
/// the identity as the JSON claim, and the HMAC signature over both — a
/// function of the key bytes and the identity alone, so it is named, not
/// spelled out.
pub uninterp spec fn jwt_hs384_of(key: Seq<u8>, id: i32) -> Seq<char>;

/// Relies on jwt's `SignWithKey` with an `Hmac<Sha384>` key built by
/// `Mac::new_from_slice`: the token is a function of the key bytes and the
/// claim alone. Signing cannot fail here — the key setup accepts keys of any
/// length, an integer claim and the fixed header always serialize, and the
/// HMAC signing step returns no error — so success is stated outright; the
/// error arms below convert outcomes those sources rule out.
#[verifier::external_body]
fn jwt_sign(key: &Vec<u8>, id: i32) -> (r: Result<String, Error>)
    ensures
        r is Ok,
        r matches Ok(t) ==> t@ == jwt_hs384_of(key@, id),
{
    let mac: hmac::Hmac<sha2::Sha384> = match Mac::new_from_slice(key) {
        Ok(m) => m,
        Err(e) => {
            return Err(Error::new(&e.to_string(), FAILED_TO_SIGN_CLAIM));
        },
    };
    id.sign_with_key(&mac).map_err(|e| Error::new(&e.to_string(), FAILED_TO_SIGN_CLAIM))
}

/// Relies on jwt's `VerifyWithKey` with an `Hmac<Sha384>` key built by
/// `Mac::new_from_slice`, which accepts keys of any length: a token this key
/// signed for a claim verifies back to that claim; any failure surfaces as a
/// verification failure.
#[verifier::external_body]
fn jwt_verify(key: &Vec<u8>, token: &str) -> (r: Result<i32, Error>)
    ensures
        r matches Err(e) ==> e.code == FAILED_TO_VERIFY_TOKEN && (forall|i: i32|
            token@ != jwt_hs384_of(key@, i)),
        r matches Ok(j) ==> (forall|i: i32| token@ == jwt_hs384_of(key@, i) ==> i == j),
{
    let mac: hmac::Hmac<sha2::Sha384> = match Mac::new_from_slice(key) {
        Ok(m) => m,
        Err(e) => {
            return Err(Error::new(&e.to_string(), FAILED_TO_VERIFY_TOKEN));
        },
    };
    token.verify_with_key(&mac).map_err(|e| Error::new(&e.to_string(), FAILED_TO_VERIFY_TOKEN))
}

/// Issues and validates bearer tokens signed with an HMAC-SHA-384 key.
#[derive(Debug, Clone)]
pub struct JWTTokener {
    key: Vec<u8>,
}

impl JWTTokener {
    /// The key material the issuer signs with.
    pub closed spec fn key_bytes(&self) -> Seq<u8> {
        self.key@
    }

    /// Establishes the signing key from the given key material. HMAC accepts
    /// keys of any length, so construction always succeeds; the `Result`
    /// mirrors issuers whose key material can be rejected.
    pub fn new(key: &str) -> (r: Result<JWTTokener, Error>)
        ensures
            r matches Ok(t) && t.key_bytes() == key.spec_bytes(),
    {
        Ok(JWTTokener { key: vstd::slice::slice_to_vec(key.as_bytes()) })
    }
}

impl Tokener for JWTTokener {
    /// The token for an identity, determined by the issuer's key bytes.
    open spec fn token_of(&self, id: i32) -> Seq<char> {
        jwt_hs384_of(self.key_bytes(), id)
    }

    /// Signing cannot fail: the key was accepted at construction, and an
    /// integer claim always signs.
    open spec fn infallible(&self) -> bool {
        true
    }

    fn gen(&self, id: i32) -> (r: Result<String, Error>) {
        jwt_sign(&self.key, id)
    }

    fn verify(&self, token: &str) -> (r: Result<i32, Error>) {
        jwt_verify(&self.key, token)
    }
}

} // verus!
