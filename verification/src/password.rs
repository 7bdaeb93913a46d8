//! The credential hasher: salted one-way hashing and fail-closed verification.

use crate::errors::ServiceError;
use vstd::prelude::*;

verus! {

/// The work factor used when none is configured.
pub const DEFAULT_COST: u32 = 12;

/// The smallest and the largest work factor that the hasher accepts.
pub const MIN_COST: u32 = 4;

pub const MAX_COST: u32 = 31;

/// The length of a hashed credential, in characters.
pub const CREDENTIAL_LEN: usize = 60;

/// What `bcrypt::verify` returns for a plaintext and a stored credential:
/// `Some` of its verdict, or `None` where it reports an error.
pub uninterp spec fn bcrypt_verdict(plain: Seq<char>, stored: Seq<char>) -> Option<bool>;

/// Calls `bcrypt::verify`, which splits the stored credential into cost, salt
/// and digest, hashes the plaintext again with that cost and salt, and compares
/// the digests. An error (a credential that is not a well-formed bcrypt string,
/// or one with a cost outside the accepted range) comes back as `None`.
#[verifier::external_body]
fn bcrypt_verify(plain: &str, stored: &str) -> (verdict: Option<bool>)
    ensures
        verdict == bcrypt_verdict(plain@, stored@),
{
    bcrypt::verify(plain, stored).ok()
}

/// Calls `bcrypt::hash`, which draws a fresh salt from the operating system
/// and hashes the plaintext with it at the given cost. It fails for a cost
/// outside `MIN_COST..=MAX_COST`, and may fail where no randomness can be had.
/// The credential it returns is the 60 characters of version, cost, salt and
/// digest, so that `bcrypt::verify` on the same plaintext recomputes the same
/// digest.
#[verifier::external_body]
fn bcrypt_hash(plain: &str, cost: u32) -> (hashed: Option<String>)
    ensures
        hashed matches Some(h) ==> bcrypt_verdict(plain@, h@) == Some(true),
        hashed matches Some(h) ==> h@.len() == CREDENTIAL_LEN,
        !(MIN_COST <= cost <= MAX_COST) ==> hashed is None,
{
    bcrypt::hash(plain, cost).ok()
}

/// Whether `plain` is accepted for the stored credential. An error inside the
/// verification counts as a mismatch.
pub open spec fn password_matches(plain: Seq<char>, stored: Seq<char>) -> bool {
    spec_accept_verdict(bcrypt_verdict(plain, stored))
}

/// The fail-closed reading of a verification outcome.
pub open spec fn spec_accept_verdict(verdict: Option<bool>) -> bool {
    verdict == Some(true)
}

/// Whether a character is a decimal digit.
pub open spec fn is_digit(c: char) -> bool {
    '0' <= c && c <= '9'
}

/// The number that a digit stands for.
pub open spec fn digit_value(c: char) -> nat {
    if is_digit(c) {
        (c as u32 - 48) as nat
    } else {
        0
    }
}

/// The number that a sequence of digits spells in base ten.
pub open spec fn decimal_value(digits: Seq<char>) -> nat
    decreases digits.len(),
{
    if digits.len() == 0 {
        0
    } else {
        decimal_value(digits.drop_last()) * 10 + digit_value(digits.last())
    }
}

/// Every character is a decimal digit.
pub open spec fn all_digits(digits: Seq<char>) -> bool {
    forall|i: int| 0 <= i < digits.len() ==> is_digit(#[trigger] digits[i])
}

/// A configured value without the one plus sign that may lead it.
pub open spec fn unsigned_part(text: Seq<char>) -> Seq<char> {
    if text.len() > 0 && text[0] == '+' {
        text.skip(1)
    } else {
        text.skip(0)
    }
}

/// The work factor that a configured text spells: one or more decimal digits,
/// after at most one plus sign, whose value fits 32 bits. Anything else,
/// spaces included, spells none.
pub open spec fn spec_parse_work_factor(text: Seq<char>) -> Option<u32> {
    let digits = unsigned_part(text);
    if digits.len() > 0 && all_digits(digits) && decimal_value(digits) <= u32::MAX {
        Some(decimal_value(digits) as u32)
    } else {
        None
    }
}

/// The work factor to hash with: the configured one, or the default where
/// none is configured or the text spells none.
pub open spec fn spec_hashing_cost(configured: Option<Seq<char>>) -> u32 {
    match configured {
        Some(text) => match spec_parse_work_factor(text) {
            Some(cost) => cost,
            None => DEFAULT_COST,
        },
        None => DEFAULT_COST,
    }
}

/// What a configuration holds, as a mathematical value.
pub open spec fn setting_view(configured: Option<&str>) -> Option<Seq<char>> {
    match configured {
        Some(text) => Some(text@),
        None => None,
    }
}

/// The digits read so far never spell more than all of them do.
proof fn decimal_value_grows(digits: Seq<char>, k: int)
    requires
        0 <= k <= digits.len(),
    ensures
        decimal_value(digits.take(k)) <= decimal_value(digits),
    decreases digits.len(),
{
    if k == digits.len() {
        assert(digits.take(k) =~= digits);
    } else {
        decimal_value_grows(digits.drop_last(), k);
        assert(digits.drop_last().take(k) =~= digits.take(k));
    }
}

/// Reads a work factor from a configured text.
pub fn parse_work_factor(text: &str) -> (cost: Option<u32>)
    ensures
        cost == spec_parse_work_factor(text@),
{
    let n = text.unicode_len();
    let start: usize = if n > 0 && text.get_char(0) == '+' {
        1
    } else {
        0
    };
    let ghost digits = unsigned_part(text@);
    assert(digits =~= text@.skip(start as int));
    if start == n {
        return None;
    }
    let mut value: u64 = 0;
    let mut i: usize = start;
    while i < n
        invariant
            start <= i <= n,
            n == text@.len(),
            digits == text@.skip(start as int),
            digits == unsigned_part(text@),
            all_digits(digits.take(i - start)),
            value == decimal_value(digits.take(i - start)),
            value <= u32::MAX,
        decreases n - i,
    {
        let c = text.get_char(i);
        assert(digits[i - start] == c);
        if c < '0' || c > '9' {
            assert(!is_digit(digits[i - start]));
            return None;
        }
        let digit: u32 = c as u32 - 48;
        let next: u64 = value * 10 + digit as u64;
        proof {
            let read = digits.take(i - start + 1);
            assert(read.drop_last() =~= digits.take(i - start));
            assert(read.last() == c);
            assert forall|k: int| 0 <= k < read.len() implies is_digit(#[trigger] read[k]) by {
                if k < read.len() - 1 {
                    assert(read[k] == digits.take(i - start)[k]);
                }
            }
            decimal_value_grows(digits, i - start + 1);
        }
        if next > 0xffff_ffff {
            return None;
        }
        value = next;
        i += 1;
    }
    assert(digits.take(i - start) =~= digits);
    Some(value as u32)
}

/// The work factor to hash with. `configured` is the override as the
/// configuration holds it, `None` where it is unset.
pub fn hashing_cost(configured: Option<&str>) -> (cost: u32)
    ensures
        cost == spec_hashing_cost(setting_view(configured)),
{
    match configured {
        Some(text) => match parse_work_factor(text) {
            Some(cost) => cost,
            None => DEFAULT_COST,
        },
        None => DEFAULT_COST,
    }
}

/// Reads a verification outcome: only a positive verdict counts as a match.
pub fn accept_verdict(verdict: Option<bool>) -> (accepted: bool)
    ensures
        accepted == spec_accept_verdict(verdict),
{
    match verdict {
        Some(matching) => matching,
        None => false,
    }
}

/// Whether `plain` re-hashes to the stored credential.
pub fn verify_password(plain: &str, stored: &str) -> (accepted: bool)
    ensures
        accepted == password_matches(plain@, stored@),
{
    accept_verdict(bcrypt_verify(plain, stored))
}

/// What a hashing attempt becomes at the service boundary.
pub fn hashed_or_internal(hashed: Option<String>) -> (r: Result<String, ServiceError>)
    ensures
        match hashed {
            Some(h) => r == Ok::<String, ServiceError>(h),
            None => r == Err::<String, ServiceError>(ServiceError::InternalError),
        },
{
    match hashed {
        Some(h) => Ok(h),
        None => Err(ServiceError::InternalError),
    }
}

/// Hashes a plaintext password at the given work factor.
///
/// Each call salts afresh, so two calls on one plaintext differ; whatever
/// credential comes back, the plaintext verifies against it. A failure of the
/// hasher is an internal error, and a work factor that the hasher does not
/// accept always fails.
pub fn hash_password(plain: &str, cost: u32) -> (r: Result<String, ServiceError>)
    ensures
        r matches Ok(h) ==> password_matches(plain@, h@) && h@.len() == CREDENTIAL_LEN,
        r matches Err(e) ==> e == ServiceError::InternalError,
        !(MIN_COST <= cost <= MAX_COST) ==> r is Err,
{
    hashed_or_internal(bcrypt_hash(plain, cost))
}

} // verus!
