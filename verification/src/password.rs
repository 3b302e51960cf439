//! Credential hashing: salted, memory-hard digests in PHC string form.

use argon2::password_hash::rand_core::OsRng;
use argon2::password_hash::{PasswordHash, PasswordHasher, PasswordVerifier, SaltString};
use argon2::Argon2;
use crate::models::TRY_AGAIN;
use vstd::prelude::*;
use vstd::string::*;
use vstd::utf8::encode_utf8;

verus! {

/// The error type of the `password-hash` crate, carried through unopened.
#[verifier::external_type_specification]
#[verifier::external_body]
pub struct ExPasswordHashError(argon2::password_hash::Error);

/// The PHC string that Argon2id with the default parameters produces for
/// `password` under the salt text `salt`; `None` where the salt text is
/// rejected or the hasher reports an error.
pub uninterp spec fn argon2_phc(password: Seq<char>, salt: Seq<char>) -> Option<Seq<char>>;

/// The answer of the default Argon2 verifier for `password` against the
/// encoded hash `encoded`: `None` where `encoded` does not parse as a PHC
/// string, else whether the recomputed digest equals the stored one.
pub uninterp spec fn argon2_verdict(password: Seq<char>, encoded: Seq<char>) -> Option<bool>;

/// A password is accepted by an encoded hash when the hash parses and the
/// verifier recomputes the same digest.
pub open spec fn password_matches(password: Seq<char>, encoded: Seq<char>) -> bool {
    argon2_verdict(password, encoded) == Some(true)
}

/// What every hash made here begins with: algorithm, version and cost
/// parameters, each field opened by a `$`.
pub const PHC_PREFIX: &'static str = "$argon2id$v=19$m=19456,t=2,p=1$";

/// The number of characters that encode the digest of 32 bytes.
pub const DIGEST_CHARS: usize = 43;

/// `encoded` has the form of a hash made under `salt`: the fixed prefix, the
/// salt text, a `$`, and the characters of the digest.
pub open spec fn encoded_under(encoded: Seq<char>, salt: Seq<char>) -> bool {
    &&& encoded.len() == PHC_PREFIX@.len() + salt.len() + 1 + DIGEST_CHARS
    &&& encoded.subrange(0, (PHC_PREFIX@.len() + salt.len()) as int) == PHC_PREFIX@ + salt
    &&& encoded[(PHC_PREFIX@.len() + salt.len()) as int] == '$'
}

/// The longest password, in bytes, that the hasher takes.
pub const MAX_PASSWORD_BYTES: u64 = 0xFFFF_FFFF;

/// The password is within the hasher's length limit.
pub open spec fn hashable(password: Seq<char>) -> bool {
    encode_utf8(password).len() <= MAX_PASSWORD_BYTES
}

/// The view of a hashing result.
pub open spec fn hash_view(hash: Result<String, String>) -> Result<Seq<char>, Seq<char>> {
    match hash {
        Ok(h) => Ok(h@),
        Err(m) => Err(m@),
    }
}

/// What hashing `password` under `salt` comes to for the caller: the encoded
/// hash, or the generic message where the hasher fails.
pub open spec fn hash_result(password: Seq<char>, salt: Seq<char>) -> Result<Seq<char>, Seq<char>> {
    match argon2_phc(password, salt) {
        Some(h) => Ok(h),
        None => Err(TRY_AGAIN@),
    }
}

/// `hash` is what hashing `password` under some well-formed salt comes to:
/// a hash, for a password within the length limit; and where it is a hash,
/// it has the form of a hash under that salt and accepts the password.
pub open spec fn hashing_outcome(password: Seq<char>, hash: Result<Seq<char>, Seq<char>>) -> bool {
    &&& hashable(password) ==> hash is Ok
    &&& exists|salt: Seq<char>|
        {
            &&& #[trigger] hash_result(password, salt) == hash
            &&& hash matches Ok(h) ==> encoded_under(h, salt) && password_matches(password, h)
        }
}

/// The salt can be read back from a hash: hashes made under different salts
/// differ, whatever the passwords.
pub proof fn lemma_salt_is_read_back(
    first: Seq<char>,
    first_salt: Seq<char>,
    second: Seq<char>,
    second_salt: Seq<char>,
)
    requires
        encoded_under(first, first_salt),
        encoded_under(second, second_salt),
        first_salt != second_salt,
    ensures
        first != second,
{
    if first == second {
        let prefix = PHC_PREFIX@;
        assert(first_salt.len() == second_salt.len());
        assert(prefix + first_salt == prefix + second_salt);
        assert((prefix + first_salt).subrange(prefix.len() as int, (prefix + first_salt).len() as int)
            =~= first_salt);
        assert((prefix + second_salt).subrange(
            prefix.len() as int,
            (prefix + second_salt).len() as int,
        ) =~= second_salt);
    }
}

/// Calls `SaltString::generate` on the operating system's random source and
/// hands the salt out as text.
///
/// Trusted: the value differs from call to call, and nothing is claimed of
/// it but that it is well formed. It is the encoding of 16 bytes, which the
/// hasher parses and decodes again, so that hashing under it fails for no
/// password within the length limit.
#[verifier::external_body]
fn random_salt() -> (salt: String)
    ensures
        forall|password: Seq<char>|
            hashable(password) ==> (#[trigger] argon2_phc(password, salt@)) is Some,
{
    SaltString::generate(&mut OsRng).as_str().to_string()
}

/// Calls `Argon2::default().hash_password` with the salt parsed by
/// `SaltString::from_b64`, and renders the result as a PHC string.
///
/// Trusted: the outcome is a function of the password and the salt text. A
/// hash produced here is rendered as the `$`-separated fields algorithm,
/// version, parameters, the salt text as it was given, and the digest of 32
/// bytes in 43 characters. It is accepted by the verifier for the same
/// password, because verification re-runs the same computation with the
/// algorithm, version, parameters and salt read back from the string.
#[verifier::external_body]
fn argon2_hash(password: &str, salt: &str) -> (res: Result<String, argon2::password_hash::Error>)
    ensures
        res matches Ok(h) ==> argon2_phc(password@, salt@) == Some(h@) && argon2_verdict(
            password@,
            h@,
        ) == Some(true),
        res matches Ok(h) ==> encoded_under(h@, salt@),
        res is Err ==> argon2_phc(password@, salt@) is None,
{
    let salt = SaltString::from_b64(salt)?;
    let hash = Argon2::default().hash_password(password.as_bytes(), &salt)?;
    Ok(hash.to_string())
}

/// Calls `PasswordHash::new` on the encoded hash and then
/// `Argon2::default().verify_password`.
///
/// Trusted: an error comes back exactly when the string does not parse; for a
/// string that parses the answer is a function of password and string.
#[verifier::external_body]
fn argon2_verify(password: &str, encoded: &str) -> (res: Result<
    bool,
    argon2::password_hash::Error,
>)
    ensures
        res matches Ok(b) ==> argon2_verdict(password@, encoded@) == Some(b),
        res is Err ==> argon2_verdict(password@, encoded@) is None,
{
    let parsed = PasswordHash::new(encoded)?;
    Ok(Argon2::default().verify_password(password.as_bytes(), &parsed).is_ok())
}

/// Turns the hasher's answer into what a caller may see: the encoded hash, or
/// the one generic message. The underlying cause is dropped.
pub fn hash_outcome(result: Result<String, argon2::password_hash::Error>) -> (res: Result<
    String,
    String,
>)
    ensures
        result matches Ok(h) ==> (res matches Ok(r) && r@ == h@),
        result is Err ==> (res matches Err(m) && m@ == TRY_AGAIN@),
{
    match result {
        Ok(h) => Ok(h),
        Err(_) => Err(TRY_AGAIN.to_owned()),
    }
}

/// Hashes `password` under the given salt text.
pub fn hash_password_with_salt(password: &str, salt: &str) -> (res: Result<String, String>)
    ensures
        hash_view(res) == hash_result(password@, salt@),
        res matches Ok(h) ==> encoded_under(h@, salt@) && password_matches(password@, h@),
{
    hash_outcome(argon2_hash(password, salt))
}

/// Hashes `password` under a freshly drawn random salt.
///
/// The result is that of [`hash_password_with_salt`] under the salt that was
/// drawn, whatever it is. A password within the hasher's length limit gets a
/// hash; the hash carries its salt and is accepted by [`verify_password`]
/// for the same password. A failure is the hasher's own, reported with
/// nothing but the generic message.
pub fn hash_password(password: &str) -> (res: Result<String, String>)
    ensures
        hashing_outcome(password@, hash_view(res)),
        hashable(password@) ==> res is Ok,
        res matches Ok(h) ==> password_matches(password@, h@),
        res matches Err(m) ==> m@ == TRY_AGAIN@,
{
    let salt = random_salt();
    let res = hash_password_with_salt(password, salt.as_str());
    assert(hash_result(password@, salt@) == hash_view(res));
    res
}

/// Reads the verifier's answer, failing closed: anything but a positive
/// answer counts as a failed verification.
pub fn verification_outcome(result: Result<bool, argon2::password_hash::Error>) -> (ok: bool)
    ensures
        ok <==> (result matches Ok(b) && b),
{
    match result {
        Ok(b) => b,
        Err(_) => false,
    }
}

/// Checks `password` against a stored encoded hash. A stored value that is
/// not a well-formed encoded hash is a failed verification.
pub fn verify_password(password: &str, password_hash: &str) -> (ok: bool)
    ensures
        ok == password_matches(password@, password_hash@),
        argon2_verdict(password@, password_hash@) is None ==> !ok,
{
    verification_outcome(argon2_verify(password, password_hash))
}

} // verus!
