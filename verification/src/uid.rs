//! Universally unique identifiers.
use vstd::prelude::*;

verus! {

/// Returns a universally unique identifier: a new ULID, made from the current time and a
/// random number (`rusty_ulid::Ulid::generate`). Nothing is stated of the value: it rests on
/// the clock and on chance. Like the generator it calls, it panics when the machine has no
/// usable random source or its clock reads before 1970 or after the year 10889; no argument
/// can rule those states out.
#[verifier::external_body]
pub fn uid() -> u128 {
    rusty_ulid::Ulid::generate().into()
}

/// Returns the text of a new universally unique lexicographically sortable identifier
/// (`rusty_ulid::generate_ulid_string`): canonically 26 Crockford base 32 characters, which
/// is all that is stated; the characters rest on the clock and on chance. It panics in the
/// machine states in which [`uid`] does.
#[verifier::external_body]
pub fn ulid() -> (s: String)
    ensures
        s@.len() == 26,
{
    rusty_ulid::generate_ulid_string()
}

} // verus!
