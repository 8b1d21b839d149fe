//! Randomness, behind trusted wrappers around the `rand` crate. Every
//! consequence of a drawn value is proved downstream for every value the
//! wrapper's contract admits.

use vstd::prelude::*;
use rand::Rng;

verus! {

/// True of the characters the alphanumeric sampler can return: ASCII digits
/// and letters of either case.
pub open spec fn is_alphanumeric_char(c: char) -> bool {
    (48 <= c as int && c as int <= 57)  // '0'..='9'
    || (65 <= c as int && c as int <= 90)  // 'A'..='Z'
    || (97 <= c as int && c as int <= 122)  // 'a'..='z'
}

/// Relies on rand's `Alphanumeric` distribution: `sample` draws one byte
/// uniformly from the set `A-Z`, `a-z`, `0-9`.
#[verifier::external_body]
pub fn sample_alphanumeric() -> (c: char)
    ensures
        is_alphanumeric_char(c),
{
    rand::thread_rng().sample(rand::distributions::Alphanumeric) as char
}

/// Relies on `rand::Rng::gen_range`: on a non-empty inclusive range it returns
/// a value within the range (it panics on an empty one, which the
/// precondition rules out).
#[verifier::external_body]
pub fn sample_range(low: usize, high: usize) -> (r: usize)
    requires
        low <= high,
    ensures
        low <= r <= high,
{
    rand::thread_rng().gen_range(low..=high)
}

} // verus!
