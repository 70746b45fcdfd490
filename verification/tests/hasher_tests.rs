use with_baby_auth::auth::Hasher;
use with_baby_auth::hashers::SHA384Hasher;

// SHA-384 of the ASCII bytes of "abc", a published test vector.
const SHA384_ABC: &str = "cb00753f45a35e8bb5a03d699ac65007272c32ab0eded1631a8b605a43ff5bed8086072ba1e7cc2358baeca134c825a7";

#[test]
fn hash_matches_known_sha384_vector() {
    let hasher = SHA384Hasher;
    // The digest is SHA-384 of secret followed by salt, hex-encoded: any
    // split of "abc" into secret and salt gives the published digest.
    assert_eq!(hasher.hash("a", "bc").unwrap(), SHA384_ABC);
    assert_eq!(hasher.hash("ab", "c").unwrap(), SHA384_ABC);
    assert_eq!(hasher.hash("abc", "").unwrap(), SHA384_ABC);
}

#[test]
fn hash_is_deterministic() {
    let hasher = SHA384Hasher;
    let first = hasher.hash("secret1", "somesalt").unwrap();
    let second = hasher.hash("secret1", "somesalt").unwrap();
    assert_eq!(first, second);
}

#[test]
fn hash_differs_for_different_salts() {
    let hasher = SHA384Hasher;
    let one = hasher.hash("secret1", "salt-one").unwrap();
    let two = hasher.hash("secret1", "salt-two").unwrap();
    assert_ne!(one, two);
}

#[test]
fn hash_is_fixed_length_lowercase_hex() {
    let hasher = SHA384Hasher;
    let digest = hasher.hash("secret1", "somesalt").unwrap();
    assert_eq!(digest.len(), 96);
    assert!(digest.chars().all(|c| c.is_ascii_hexdigit() && !c.is_ascii_uppercase()));
}

#[test]
fn gen_salt_is_32_alphanumeric_characters() {
    let hasher = SHA384Hasher;
    let salt = hasher.gen_salt().unwrap();
    assert_eq!(salt.len(), 32);
    assert!(salt.chars().all(|c| c.is_ascii_alphanumeric()));
}

#[test]
fn gen_salt_varies_between_calls() {
    let hasher = SHA384Hasher;
    let one = hasher.gen_salt().unwrap();
    let two = hasher.gen_salt().unwrap();
    assert_ne!(one, two);
}
