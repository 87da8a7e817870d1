use vstd::prelude::*;

verus! {

#[verifier::external_type_specification]
#[verifier::external_body]
pub struct ExBcryptError(bcrypt::BcryptError);

/// What bcrypt's `verify` reports for a password and a stored hash: `Some(b)`
/// when the hash could be read (`b` says whether the password matches it),
/// `None` when the hash is malformed.
pub uninterp spec fn bcrypt_verdict(password: Seq<char>, hash: Seq<char>) -> Option<bool>;

/// The work factor of every new hash.
pub const HASH_COST: u32 = 12;

/// A character of bcrypt's base64 alphabet: `.`, `/`, letters and digits.
pub open spec fn is_bcrypt_base64(c: char) -> bool {
    c == '.' || c == '/' || ('A' <= c && c <= 'Z') || ('a' <= c && c <= 'z') || ('0' <= c && c
        <= '9')
}

/// The character of a decimal digit `d < 10`.
pub open spec fn decimal_digit(d: u32) -> char {
    if d == 0 {
        '0'
    } else if d == 1 {
        '1'
    } else if d == 2 {
        '2'
    } else if d == 3 {
        '3'
    } else if d == 4 {
        '4'
    } else if d == 5 {
        '5'
    } else if d == 6 {
        '6'
    } else if d == 7 {
        '7'
    } else if d == 8 {
        '8'
    } else {
        '9'
    }
}

/// The text of a bcrypt hash at work factor `cost`: `$2b$`, the cost as two
/// decimal digits, `$`, then 53 characters of bcrypt's base64 alphabet (22 of
/// salt and 31 of hash).
pub open spec fn bcrypt_form(h: Seq<char>, cost: u32) -> bool {
    &&& h.len() == 60
    &&& h[0] == '$'
    &&& h[1] == '2'
    &&& h[2] == 'b'
    &&& h[3] == '$'
    &&& h[4] == decimal_digit(cost / 10)
    &&& h[5] == decimal_digit(cost % 10)
    &&& h[6] == '$'
    &&& forall|k: int| 7 <= k < 60 ==> is_bcrypt_base64(#[trigger] h[k])
}

/// A failure of the hashing algorithm itself, as opposed to a wrong password.
#[derive(PartialEq, Eq, Structural, Clone, Copy, Debug)]
pub enum HashError {
    Failed,
}

/// Relies on bcrypt::hash: a salted hash at the given cost, formatted as
/// `$2b$`, the cost in two digits, `$`, then the salt and the hash in bcrypt's
/// base64 (22 and 31 characters). Its salt is random, so nothing more is
/// promised of the text; `verify` recomputes the hash with the salt and cost
/// that the text carries, so the password verifies against it. It fails only
/// when the system's random source does.
#[verifier::external_body]
fn bcrypt_hash(password: &str, cost: u32) -> (r: Result<String, bcrypt::BcryptError>)
    requires
        4 <= cost <= 31,
    ensures
        r matches Ok(h) ==> bcrypt_form(h@, cost),
        r matches Ok(h) ==> bcrypt_verdict(password@, h@) == Some(true),
{
    bcrypt::hash(password, cost)
}

/// Relies on bcrypt::verify: recomputes the hash of `password` with the salt and
/// cost read from `hash` and compares; an error when `hash` cannot be read.
#[verifier::external_body]
fn bcrypt_verify(password: &str, hash: &str) -> (r: Result<bool, bcrypt::BcryptError>)
    ensures
        r matches Ok(b) ==> bcrypt_verdict(password@, hash@) == Some(b),
        r is Err ==> bcrypt_verdict(password@, hash@) is None,
{
    bcrypt::verify(password, hash)
}

/// Hashes a password with a fresh salt at the configured work factor. Whatever
/// hash comes back has bcrypt's form at that cost and verifies against the
/// same password.
pub fn hash_password(password: &str) -> (r: Result<String, HashError>)
    ensures
        r matches Ok(h) ==> bcrypt_form(h@, HASH_COST),
        r matches Ok(h) ==> h@.subrange(0, 7) == "$2b$12$"@,
        r matches Ok(h) ==> bcrypt_verdict(password@, h@) == Some(true),
{
    let r = hash_password_with_cost(password, HASH_COST);
    proof {
        if r is Ok {
            let h = r->Ok_0@;
            reveal_strlit("$2b$12$");
            assert(h.subrange(0, 7) =~= "$2b$12$"@);
        }
    }
    r
}

/// Hashes a password with a fresh salt at a work factor between 4 and 31.
pub fn hash_password_with_cost(password: &str, cost: u32) -> (r: Result<String, HashError>)
    requires
        4 <= cost <= 31,
    ensures
        r matches Ok(h) ==> bcrypt_form(h@, cost),
        r matches Ok(h) ==> bcrypt_verdict(password@, h@) == Some(true),
{
    match bcrypt_hash(password, cost) {
        Ok(h) => Ok(h),
        Err(_) => Err(HashError::Failed),
    }
}

/// Checks a password against a stored hash: `Ok(false)` for a wrong password,
/// an error only when the hash cannot be read.
pub fn verify_password(password: &str, hash: &str) -> (r: Result<bool, HashError>)
    ensures
        r == verdict_result(bcrypt_verdict(password@, hash@)),
{
    match bcrypt_verify(password, hash) {
        Ok(b) => Ok(b),
        Err(_) => Err(HashError::Failed),
    }
}

pub open spec fn verdict_result(v: Option<bool>) -> Result<bool, HashError> {
    match v {
        Some(b) => Ok(b),
        None => Err(HashError::Failed),
    }
}

} // verus!
