//! Helpers for running tests, and a plain numeric identifier.
use crate::text::{hex_lower, render_digits};
use vstd::prelude::*;

verus! {

/// Runs a test: calls it once. Setting up logging for tests is the application's part.
pub fn run_test<F: FnOnce()>(test: F)
    requires
        test.requires(()),
    ensures
        test.ensures((), ()),
{
    test()
}

/// A numeric identifier.
#[derive(Clone, Copy, Debug, PartialEq, Eq, Structural, Hash)]
pub struct Id(pub u128);

impl Id {
    /// returns the id
    pub fn id(&self) -> (r: u128)
        ensures
            r == self.0,
    {
        self.0
    }

    /// The id in lower hex format.
    pub fn to_string(&self) -> (s: String)
        ensures
            s@ == hex_lower(self.0 as nat),
    {
        render_digits(self.0, 16)
    }
}

impl core::ops::Deref for Id {
    type Target = u128;

    fn deref(&self) -> (r: &u128)
        ensures
            *r == self.0,
    {
        &self.0
    }
}

impl From<u128> for Id {
    fn from(value: u128) -> (r: Id) {
        Id(value)
    }
}

impl vstd::std_specs::convert::FromSpecImpl<u128> for Id {
    open spec fn obeys_from_spec() -> bool {
        true
    }

    open spec fn from_spec(value: u128) -> Id {
        Id(value)
    }
}

} // verus!
