//! Passwords: hashed with bcrypt when an account is made, checked against the
//! stored hash at login.

use vstd::prelude::*;

verus! {

/// What `bcrypt::verify` says of a password and a stored hash: whether they
/// belong together, or the text of the error where the hash is no bcrypt hash.
pub uninterp spec fn bcrypt_verify(password: Seq<char>, hash: Seq<char>) -> Result<
    bool,
    Seq<char>,
>;

/// Calls `bcrypt::verify`. Its result depends on the two texts alone and is
/// named by `bcrypt_verify`; an error is handed on as its text.
#[verifier::external_body]
fn check_hash(password: &str, hash: &str) -> (matching: Result<bool, String>)
    ensures
        crate::reply::answer_of(matching) == bcrypt_verify(password@, hash@),
{
    bcrypt::verify(password, hash).map_err(|e| e.to_string())
}

/// The password belongs to the stored hash.
pub open spec fn accepted(password: Seq<char>, hash: Seq<char>) -> bool {
    bcrypt_verify(password, hash) matches Ok(matching) && matching
}

/// The decimal digit of a number below ten.
pub open spec fn decimal_digit(n: u32) -> char {
    (n + 0x30) as char
}

/// The form of the hash that `bcrypt::hash` makes: version `2b`, the cost in
/// two digits, then 22 characters of salt and 31 of hash.
pub open spec fn hash_form(hash: Seq<char>, cost: u32) -> bool {
    &&& 4 <= cost <= 31
    &&& hash.len() == 60
    &&& hash.subrange(0, 7) == seq![
        '$',
        '2',
        'b',
        '$',
        decimal_digit(cost / 10),
        decimal_digit(cost % 10),
        '$',
    ]
}

/// The text of the error that the system had no randomness to give.
pub open spec fn randomness_error(error: Seq<char>) -> bool {
    "Rand error: "@.is_prefix_of(error)
}

/// Calls `bcrypt::hash`, which salts the password from the randomness of the
/// system. It fails on a cost outside 4 to 31 and where the system has no
/// randomness to give; at a cost from 4 to 31 only the latter is left, and its
/// text begins as `randomness_error` says. When that happens is for the system
/// to say. A hash that it makes has the form of `hash_form` and is accepted by
/// `bcrypt::verify` together with the password; which salt was drawn is left
/// to chance.
#[verifier::external_body]
fn make_hash(password: &str, cost: u32) -> (made: Result<String, String>)
    ensures
        made matches Ok(hash) ==> hash_form(hash@, cost),
        made matches Ok(hash) ==> accepted(password@, hash@),
        4 <= cost <= 31 ==> (made matches Err(error) ==> randomness_error(error@)),
{
    bcrypt::hash(password, cost).map_err(|e| e.to_string())
}

/// Reads `bcrypt::DEFAULT_COST`, which is 12.
#[verifier::external_body]
fn default_cost() -> (cost: u32)
    ensures
        cost == 12,
{
    bcrypt::DEFAULT_COST
}

/// The hashing of a password gave this when it was asked, at cost 12.
pub closed spec fn hashing_gave(password: &str, made: Result<String, String>) -> bool {
    call_ensures(make_hash, (password, 12), made)
}

/// The hashing of a password gave what asking bcrypt at cost 12 gives, and in
/// no other way.
proof fn hashes_come_from_bcrypt(password: &str, made: Result<String, String>)
    ensures
        hashing_gave(password, made) ==> call_ensures(make_hash, (password, 12), made),
{
}

/// Hashes a password for storage, at cost 12. The hash is one that the
/// password is later accepted with. No password is refused: the only failure
/// is that the system has no randomness to give.
pub fn hash_password(password: &str) -> (made: Result<String, String>)
    ensures
        made matches Ok(hash) ==> hash_form(hash@, 12),
        made matches Ok(hash) ==> accepted(password@, hash@),
        made matches Err(error) ==> randomness_error(error@),
        hashing_gave(password, made),
{
    make_hash(password, default_cost())
}

/// Does the password belong to the stored hash?
pub fn verify_password(password: &str, stored_hash: &str) -> (matching: Result<bool, String>)
    ensures
        crate::reply::answer_of(matching) == bcrypt_verify(password@, stored_hash@),
{
    check_hash(password, stored_hash)
}

} // verus!
