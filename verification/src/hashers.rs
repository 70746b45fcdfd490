//! The SHA-384 password hasher: a fresh 32-character alphanumeric salt, and
//! the lowercase-hex SHA-384 digest of the secret followed by the salt.

use vstd::prelude::*;
use vstd::string::StringExecFns;

use crate::auth::Hasher;
use crate::errors::Error;

use rand::distributions::DistString;
use sha2::Digest;

verus! {

/// The SHA-384 digest — 48 bytes — of the UTF-8 bytes of a sequence of
/// characters. The algorithm itself lives in the outside crate; it is relied
/// on only as a function of its input, so its result is named, not spelled
/// out.
pub uninterp spec fn sha384_of(s: Seq<char>) -> Seq<u8>;

/// The lowercase hexadecimal digit for a value below 16.
pub open spec fn hex_digit(n: u8) -> char
    recommends
        n < 16,
{
    if n < 10 {
        ((n + 48) as u8) as char
    } else {
        ((n + 87) as u8) as char
    }
}

/// Lowercase hexadecimal encoding: two digits per byte, high nibble first.
pub open spec fn hex_of(bytes: Seq<u8>) -> Seq<char> {
    Seq::new(
        bytes.len() * 2,
        |i: int|
            if i % 2 == 0 {
                hex_digit(bytes[i / 2] >> 4)
            } else {
                hex_digit(bytes[i / 2] & 15)
            },
    )
}

/// Holds for the ASCII letters and digits.
pub open spec fn is_alphanumeric_char(c: char) -> bool {
    ||| ('a' <= c && c <= 'z')
    ||| ('A' <= c && c <= 'Z')
    ||| ('0' <= c && c <= '9')
}

/// Relies on sha2's `Sha384`: the digest is 48 bytes and a function of the
/// input bytes alone.
#[verifier::external_body]
fn sha384(s: &str) -> (r: Vec<u8>)
    ensures
        r@ == sha384_of(s@),
        r@.len() == 48,
{
    sha2::Sha384::digest(s.as_bytes()).to_vec()
}

/// Relies on hex::encode: lowercase hexadecimal, two digits per byte, high
/// nibble first.
#[verifier::external_body]
fn hex_encode(bytes: &Vec<u8>) -> (r: String)
    ensures
        r@ == hex_of(bytes@),
{
    hex::encode(bytes)
}

/// Relies on rand's `Alphanumeric` distribution over `ThreadRng`: `len`
/// characters drawn from the ASCII letters and digits. The result is random,
/// so nothing beyond its length and character class is stated.
#[verifier::external_body]
fn random_alphanumeric(len: usize) -> (r: String)
    ensures
        r@.len() == len,
        forall|i: int| 0 <= i < r@.len() ==> is_alphanumeric_char(r@[i]),
{
    rand::distributions::Alphanumeric.sample_string(&mut rand::rngs::ThreadRng::default(), len)
}

/// Hashes with SHA-384 and salts with 32 alphanumeric characters from a
/// cryptographically strong random source.
pub struct SHA384Hasher;

impl Hasher for SHA384Hasher {
    /// The digest: lowercase hex of the SHA-384 of the secret followed by
    /// the salt.
    open spec fn hash_of(&self, origin: Seq<char>, salt: Seq<char>) -> Seq<char> {
        hex_of(sha384_of(origin + salt))
    }

    /// Salt generation and digest computation cannot fail.
    open spec fn infallible(&self) -> bool {
        true
    }

    /// Beyond the interface's printable text, this hasher's salts are ASCII
    /// letters and digits throughout.
    fn gen_salt(&self) -> (r: Result<String, Error>)
        ensures
            r matches Ok(s) ==> forall|i: int|
                0 <= i < s@.len() ==> is_alphanumeric_char(#[trigger] s@[i]),
    {
        Ok(random_alphanumeric(32))
    }

    fn hash(&self, origin: &str, salt: &str) -> (r: Result<String, Error>) {
        let joined = String::from_str(origin).concat(salt);
        let digest = sha384(joined.as_str());
        Ok(hex_encode(&digest))
    }
}

} // verus!
