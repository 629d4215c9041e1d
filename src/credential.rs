//! One-way salted password hashing with Argon2, and checking a secret against a stored hash.
use vstd::prelude::*;
use crate::text::{has_prefix, strip_prefix_chars};

verus! {

/// Number of random bytes in each fresh salt.
pub const SALT_LEN: usize = 16;

/// Fewest salt bytes the hasher takes: their B64 form must have at least four characters.
pub const MIN_SALT_LEN: usize = 3;

/// How every hash this library writes begins: Argon2id, version 19, 19456 KiB
/// of memory, two passes, one lane. Only hashes with these parameters are read.
pub open spec fn phc_prefix() -> Seq<char> {
    seq![
        '$', 'a', 'r', 'g', 'o', 'n', '2', 'i', 'd', '$', 'v', '=', '1', '9', '$', 'm', '=', '1',
        '9', '4', '5', '6', ',', 't', '=', '2', ',', 'p', '=', '1', '$',
    ]
}

/// What Argon2 with its default parameters gives for a secret and a salt:
/// the encoded hash string, or nothing where it refuses the inputs.
pub uninterp spec fn argon2_phc(secret: Seq<u8>, salt: Seq<u8>) -> Option<Seq<char>>;

/// What checking a secret against an encoded hash gives: whether it matches,
/// or nothing where the hash cannot be read.
pub uninterp spec fn argon2_check(secret: Seq<u8>, phc: Seq<char>) -> Option<bool>;

/// `phc` is what hashing `secret` gives under some salt.
pub open spec fn is_hash_of(secret: Seq<u8>, phc: Seq<char>) -> bool {
    &&& has_prefix(phc, phc_prefix())
    &&& exists|salt: Seq<u8>|
        salt.len() >= MIN_SALT_LEN && #[trigger] argon2_phc(secret, salt) == Some(phc)
}

/// Why a secret could not be hashed or checked.
#[derive(Debug, Clone, Copy, PartialEq, Eq, Structural)]
pub enum HashingError {
    /// The random source gave no salt.
    EntropyUnavailable,
    /// The hasher refused the secret or the salt.
    Rejected,
    /// The stored hash cannot be read.
    Malformed,
}

/// Relies on rand_core's `OsRng::try_fill_bytes`: fills the buffer from the
/// operating system's random source, or reports that it could not.
#[verifier::external_body]
pub(crate) fn fill_random(buf: &mut Vec<u8>) -> (ok: bool)
    ensures
        final(buf)@.len() == old(buf)@.len(),
{
    password_hash::rand_core::RngCore::try_fill_bytes(
        &mut password_hash::rand_core::OsRng,
        buf.as_mut_slice(),
    ).is_ok()
}

/// Relies on argon2's `Argon2::default().hash_password`, with the salt bytes
/// taken in through `SaltString::encode_b64`; the result is the PHC string,
/// which starts with the default algorithm, version and parameters. A salt
/// under three bytes would make `SaltString::as_salt` panic.
#[verifier::external_body]
fn argon2_hash(secret: &[u8], salt: &[u8]) -> (r: Option<String>)
    requires
        salt@.len() >= MIN_SALT_LEN,
    ensures
        r is Some <==> argon2_phc(secret@, salt@) is Some,
        r is Some ==> argon2_phc(secret@, salt@) == Some(r->Some_0@),
        r is Some ==> has_prefix(r->Some_0@, phc_prefix()),
{
    let salt = password_hash::SaltString::encode_b64(salt).ok()?;
    let hasher = argon2::Argon2::default();
    let hash = argon2::PasswordHasher::hash_password(&hasher, secret, &salt).ok()?;
    Some(hash.to_string())
}

/// Relies on `PasswordHash::new` to read a PHC string and on
/// `Argon2::default().verify_password`, which recomputes the digest with the
/// algorithm, parameters and salt written in the string and compares it in
/// constant time; so a string that hashing gave for a secret matches that secret.
/// Argon2 allocates the memory the string's parameters name, so only strings
/// with the default parameters are handed to it.
#[verifier::external_body]
fn argon2_verify(secret: &[u8], phc: &str) -> (r: Option<bool>)
    requires
        has_prefix(phc@, phc_prefix()),
    ensures
        r == argon2_check(secret@, phc@),
        is_hash_of(secret@, phc@) ==> r == Some(true),
{
    let parsed = password_hash::PasswordHash::new(phc).ok()?;
    let hasher = argon2::Argon2::default();
    match argon2::PasswordVerifier::verify_password(&hasher, secret, &parsed) {
        Ok(()) => Some(true),
        Err(password_hash::Error::Password) => Some(false),
        Err(_) => None,
    }
}

/// Hashes `secret` with the given salt; a salt under three bytes is refused.
pub fn hash_with_salt(secret: &[u8], salt: &[u8]) -> (r: Result<String, HashingError>)
    ensures
        salt@.len() < MIN_SALT_LEN ==> r == Err::<String, HashingError>(HashingError::Rejected),
        salt@.len() >= MIN_SALT_LEN ==> match argon2_phc(secret@, salt@) {
            Some(h) => r is Ok && r->Ok_0@ == h,
            None => r == Err::<String, HashingError>(HashingError::Rejected),
        },
        r is Ok ==> has_prefix(r->Ok_0@, phc_prefix()),
{
    if salt.len() < MIN_SALT_LEN {
        return Err(HashingError::Rejected);
    }
    match argon2_hash(secret, salt) {
        Some(h) => Ok(h),
        None => Err(HashingError::Rejected),
    }
}

/// Hashes `secret` under a fresh random salt.
pub fn hash_password(secret: &[u8]) -> (r: Result<String, HashingError>)
    ensures
        r is Ok ==> is_hash_of(secret@, r->Ok_0@),
        r is Err ==> r->Err_0 != HashingError::Malformed,
{
    let mut salt: Vec<u8> = vec![0u8; SALT_LEN];
    if !fill_random(&mut salt) {
        return Err(HashingError::EntropyUnavailable);
    }
    let r = hash_with_salt(secret, salt.as_slice());
    proof {
        if r is Ok {
            assert(argon2_phc(secret@, salt@) == Some(r->Ok_0@));
        }
    }
    r
}

/// `secret` matches the stored hash `phc`: the hash carries this library's
/// parameters and checking the secret against it succeeds.
pub open spec fn password_matches(secret: Seq<u8>, phc: Seq<char>) -> bool {
    has_prefix(phc, phc_prefix()) && argon2_check(secret, phc) == Some(true)
}

/// The PHC string carries this library's parameters.
pub fn has_default_params(phc: &str) -> (r: bool)
    ensures
        r == has_prefix(phc@, phc_prefix()),
{
    let prefix: [char; 31] = [
        '$', 'a', 'r', 'g', 'o', 'n', '2', 'i', 'd', '$', 'v', '=', '1', '9', '$', 'm', '=', '1',
        '9', '4', '5', '6', ',', 't', '=', '2', ',', 'p', '=', '1', '$',
    ];
    proof {
        assert(prefix@ =~= phc_prefix());
    }
    strip_prefix_chars(phc, &prefix).is_some()
}

/// Checks `secret` against a stored hash. A wrong secret gives `Ok(false)`;
/// a hash that cannot be read, or that carries other parameters than this
/// library's, gives `Malformed`. Whatever hashing gave for a secret is
/// accepted for that secret.
pub fn verify_password(secret: &[u8], phc: &str) -> (r: Result<bool, HashingError>)
    ensures
        !has_prefix(phc@, phc_prefix()) ==> r == Err::<bool, HashingError>(HashingError::Malformed),
        has_prefix(phc@, phc_prefix()) ==> match argon2_check(secret@, phc@) {
            Some(b) => r == Ok::<bool, HashingError>(b),
            None => r == Err::<bool, HashingError>(HashingError::Malformed),
        },
        is_hash_of(secret@, phc@) ==> r == Ok::<bool, HashingError>(true),
{
    if !has_default_params(phc) {
        return Err(HashingError::Malformed);
    }
    match argon2_verify(secret, phc) {
        Some(b) => Ok(b),
        None => Err(HashingError::Malformed),
    }
}

} // verus!
