//! Tokens: a token is a bcrypt hash of the id of the user it was issued to.

use vstd::prelude::*;

verus! {

/// Result of `bcrypt::verify(password, hash)`: whether the bcrypt hash of
/// `password` under the cost and salt written in `hash` equals the digest
/// written in `hash`; `Err` where `hash` is not a well-formed bcrypt hash.
/// A function of its two arguments alone.
pub uninterp spec fn bcrypt_verify(password: Seq<char>, hash: Seq<char>) -> Result<bool, ()>;

/// A character of bcrypt's base-64 alphabet: `.`, `/`, letters and digits.
pub open spec fn is_bcrypt_base64_char(c: char) -> bool {
    c == '.' || c == '/' || ('A' <= c && c <= 'Z') || ('a' <= c && c <= 'z') || ('0' <= c && c
        <= '9')
}

/// The text of a bcrypt hash made at the default cost: `$2b$12$`, then 53
/// characters of bcrypt's base-64 alphabet (22 of salt, 31 of digest);
/// 60 characters in all.
pub open spec fn is_default_bcrypt_text(h: Seq<char>) -> bool {
    &&& h.len() == 60
    &&& h.subrange(0, 7) == "$2b$12$"@
    &&& forall|i: int| 7 <= i < 60 ==> #[trigger] is_bcrypt_base64_char(h[i])
}

/// `bcrypt::verify` of the bcrypt crate, applied to the UTF-8 bytes of
/// `password`; the crate's error is reduced to `()`. Its result is the
/// named `bcrypt_verify` of the two texts.
#[verifier::external_body]
fn bcrypt_verify_call(password: &str, hash: &str) -> (res: Result<bool, ()>)
    ensures
        res == bcrypt_verify(password@, hash@),
{
    match bcrypt::verify(password, hash) {
        Ok(v) => Ok(v),
        Err(_) => Err(()),
    }
}

/// `bcrypt::hash` of the bcrypt crate at `bcrypt::DEFAULT_COST` (12) with a
/// fresh random salt. It fails only where the operating system gives no
/// random bytes (`None`); what it returns otherwise depends on the salt, and
/// the crate's source shows that `bcrypt::verify` of the same password
/// against it is `Ok(true)`: verify re-hashes the password with the cost and
/// salt read back from the text and compares digests. The text is
/// `HashParts::format` of version `2b`, cost `12`, the salt's 16 bytes and
/// the digest's first 23 bytes, both in bcrypt's unpadded base 64: 60
/// characters. Which salt and digest it holds is not stated.
#[verifier::external_body]
fn bcrypt_hash_call(password: &str) -> (res: Option<String>)
    ensures
        res matches Some(h) ==> token_accepted(password@, h@),
        res matches Some(h) ==> is_default_bcrypt_text(h@),
{
    match bcrypt::hash(password, bcrypt::DEFAULT_COST) {
        Ok(h) => Some(h),
        Err(_) => None,
    }
}

/// Hashes a password (or a user id) with bcrypt at the default cost.
/// `None` where no random salt could be had; otherwise a 60-character
/// `$2b$12$` bcrypt text that verifies against the text it was made from.
pub fn hash_secret(secret: &str) -> (res: Option<String>)
    ensures
        res matches Some(h) ==> token_accepted(secret@, h@),
        res matches Some(h) ==> is_default_bcrypt_text(h@),
{
    bcrypt_hash_call(secret)
}

/// Issues a token for a user: a bcrypt hash of the user's id. `None` where
/// no random salt could be had. Every token issued for a user is a
/// 60-character `$2b$12$` bcrypt text and verifies for that user.
pub fn create_token(user_id: &str) -> (res: Option<String>)
    ensures
        res matches Some(t) ==> token_accepted(user_id@, t@),
        res matches Some(t) ==> is_default_bcrypt_text(t@),
{
    bcrypt_hash_call(user_id)
}

/// Checks a token (or stored password hash) against a user id (or
/// password): `Ok(true)` where it matches, `Ok(false)` where it does not,
/// `Err(())` where the token is not a well-formed bcrypt hash.
pub fn verify_token(user_id: &String, token: &String) -> (res: Result<bool, ()>)
    ensures
        res == bcrypt_verify(user_id@, token@),
{
    bcrypt_verify_call(user_id.as_str(), token.as_str())
}

/// Whether a token is accepted for a user: a failed check counts as a
/// refusal.
pub open spec fn token_accepted(user_id: Seq<char>, token: Seq<char>) -> bool {
    bcrypt_verify(user_id, token) == Ok::<bool, ()>(true)
}

} // verus!
