//! Hashing passwords and checking them against a stored hash.

use bcrypt::BcryptError;
use vstd::prelude::*;

verus! {

/// The cost at which passwords are hashed: the default of the hash
/// function.
pub const DEFAULT_COST: u32 = 12;

/// `bcrypt::BcryptError`, carried as an opaque value.
#[verifier::external_type_specification]
#[verifier::external_body]
pub struct ExBcryptError(BcryptError);

/// What checking `password` against `hash` gives: whether they match, or
/// nothing where the check itself fails (on a malformed hash, say).
pub uninterp spec fn password_check(password: Seq<char>, hash: Seq<char>) -> Option<bool>;

/// The value of a decimal digit.
pub open spec fn digit_value(c: char) -> int {
    c as u32 - 0x30
}

/// `hash` is a hash that was made at `cost`: it has 60 characters and
/// starts with `$2b$`, the cost in two decimal digits, and `$`.
pub open spec fn is_hash_of_cost(hash: Seq<char>, cost: u32) -> bool {
    &&& hash.len() == 60
    &&& hash[0] == '$'
    &&& hash[1] == '2'
    &&& hash[2] == 'b'
    &&& hash[3] == '$'
    &&& 0 <= digit_value(hash[4]) <= 9
    &&& 0 <= digit_value(hash[5]) <= 9
    &&& 10 * digit_value(hash[4]) + digit_value(hash[5]) == cost
    &&& hash[6] == '$'
}

/// Calls `bcrypt::verify`.
///
/// Claimed: the result depends on the two texts alone. It is named by
/// [`password_check`]; an error stands for `None`.
#[verifier::external_body]
pub(crate) fn bcrypt_verify(password: &str, hash: &str) -> (checked: Result<bool, BcryptError>)
    ensures
        match checked {
            Ok(matches) => password_check(password@, hash@) == Some(matches),
            Err(_) => password_check(password@, hash@) is None,
        },
{
    bcrypt::verify(password, hash)
}

/// Calls `bcrypt::hash` with `cost`.
///
/// The salt is random, so the hash is not named. Claimed of every hash
/// that comes out: the cost was one of 4 to 31, since any other is refused;
/// the hash is written as `$2b$`, the cost in two digits, `$`, and 53
/// characters of salt and digest; and checking the same password against it
/// succeeds, since the check reads cost and salt back from the hash and
/// repeats the computation.
#[verifier::external_body]
pub(crate) fn bcrypt_hash(password: &str, cost: u32) -> (hashed: Result<String, BcryptError>)
    ensures
        hashed matches Ok(hash) ==> 4 <= cost <= 31,
        hashed matches Ok(hash) ==> is_hash_of_cost(hash@, cost),
        hashed matches Ok(hash) ==> password_check(password@, hash@) == Some(true),
{
    bcrypt::hash(password, cost)
}

} // verus!
