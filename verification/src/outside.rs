//! The few calls into outside crates that the library's logic needs, each
//! behind a small trusted wrapper whose contract states only what the outside
//! source plainly shows.

use vstd::prelude::*;

verus! {

/// Relies on `rand::random_ratio`: returns true with probability
/// `num / den`. Nothing can be promised of a single random draw; the
/// bounds keep the call away from the inputs on which it panics.
#[verifier::external_body]
pub(crate) fn random_ratio(num: u32, den: u32) -> bool
    requires
        0 < den,
        num <= den,
{
    rand::random_ratio(num, den)
}

/// Relies on `uuid::Uuid::new_v4` and its `Display` impl: a fresh random
/// identifier, rendered in the hyphenated form, which is always 36
/// characters. The value itself is random, so nothing more is stated.
#[verifier::external_body]
pub(crate) fn fresh_uuid_string() -> (r: String)
    ensures
        r@.len() == 36,
{
    uuid::Uuid::new_v4().to_string()
}

/// The characters that `str::to_uppercase` yields for `s`, a function of the
/// characters of `s` alone.
pub uninterp spec fn upper_of(s: Seq<char>) -> Seq<char>;

/// Relies on `str::to_uppercase`: the result depends on the characters of
/// the input alone, and an empty input stays empty.
#[verifier::external_body]
pub(crate) fn to_uppercase(s: &str) -> (r: String)
    ensures
        r@ == upper_of(s@),
        s@.len() == 0 ==> r@.len() == 0,
{
    s.to_uppercase()
}

} // verus!
