//! Password hashes, made and checked with `bcrypt`.

use vstd::prelude::*;
use crate::config::digit_char;

verus! {

/// What `bcrypt::verify` answers for `password` against the stored `hash`:
/// whether they match, or the text of the error (a malformed hash, a cost out
/// of range).
pub uninterp spec fn bcrypt_verdict(password: Seq<char>, hash: Seq<char>) -> Result<bool, Seq<char>>;

/// A verdict with its error written as text.
pub open spec fn verdict_view(res: Result<bool, String>) -> Result<bool, Seq<char>> {
    match res {
        Ok(b) => Ok(b),
        Err(e) => Err(e@),
    }
}

/// The verdict of a password that matches its hash.
pub open spec fn matching_verdict() -> Result<bool, Seq<char>> {
    Ok(true)
}

/// The cost with which new passwords are hashed.
pub const PASSWORD_HASH_COST: u32 = 10;

/// `bcrypt::verify(password, hash)`, its error turned into its text. The
/// answer depends on the two arguments alone: the salt and the cost are read
/// from the hash.
#[verifier::external_body]
pub(crate) fn verify_password(password: &str, hash: &str) -> (res: Result<bool, String>)
    ensures
        verdict_view(res) == bcrypt_verdict(password@, hash@),
{
    match bcrypt::verify(password, hash) {
        Ok(matches) => Ok(matches),
        Err(e) => Err(e.to_string()),
    }
}

/// The shape of a hash that `bcrypt::hash` writes with `cost` (between 4
/// and 31): sixty characters, `$2b$`, the cost in two digits, `$`, then the
/// salt and the digest in bcrypt's base64.
pub open spec fn bcrypt_shape(h: Seq<char>, cost: u32) -> bool {
    &&& h.len() == 60
    &&& h[0] == '$' && h[1] == '2' && h[2] == 'b' && h[3] == '$'
    &&& h[4] == digit_char((cost / 10) as int) && h[5] == digit_char((cost % 10) as int)
    &&& h[6] == '$'
}

/// `bcrypt::hash(password, cost)`, its error turned into its text. The salt
/// is drawn at random, so the hash is not a function of the arguments; what
/// holds of every outcome is that a hash it returns is one that
/// `bcrypt::verify` accepts `password` against (`verify` reads the same cost
/// and salt back and recomputes the same digest), written in the `$2b$`
/// form with the given cost. Whether it succeeds is not stated: the salt
/// comes from the operating system's randomness, which may fail.
#[verifier::external_body]
pub(crate) fn hash_password(password: &str, cost: u32) -> (res: Result<String, String>)
    requires
        4 <= cost <= 31,
    ensures
        res is Ok ==> bcrypt_verdict(password@, res->Ok_0@) == matching_verdict(),
        res is Ok ==> bcrypt_shape(res->Ok_0@, cost),
{
    match bcrypt::hash(password, cost) {
        Ok(h) => Ok(h),
        Err(e) => Err(e.to_string()),
    }
}

} // verus!
