//! Type safe numeric identifiers: an [`Id`] is a `u64` tagged with the type it identifies.
use crate::text::{hex_lower, render_digits};
use core::marker::PhantomData;
use std::collections::hash_map::DefaultHasher;
use std::hash::Hasher;
use vstd::std_specs::hash::DefaultHasherAdditionalSpecFns;
use vstd::prelude::*;
use vstd::std_specs::cmp::{PartialEqSpec, PartialEqSpecImpl, PartialOrdSpec, PartialOrdSpecImpl};

verus! {

/// Id represents an identifier for some type `T`.
#[derive(Debug)]
pub struct Id<T: ?Sized> {
    id: u64,
    _type: PhantomData<T>,
}

/// The bytes of a new random (version 4) UUID (`uuid::Uuid::new_v4`, then `into_bytes`). They
/// rest on chance: nothing is stated of them. Like `new_v4`, it panics when the machine has no
/// usable random source; no argument can rule that state out.
#[verifier::external_body]
fn random_uuid_bytes() -> [u8; 16] {
    uuid::Uuid::new_v4().into_bytes()
}

impl<T: ?Sized> Id<T> {
    /// The numeric value of the identifier.
    pub closed spec fn value(&self) -> u64 {
        self.id
    }

    /// The id of the value.
    pub closed spec fn with_value(id: u64) -> Id<T> {
        Id { id: id, _type: PhantomData }
    }

    /// Constructs a new random unique Id. The odds for collision are the same as for a version
    /// 4 UUID: the algorithm generates a version 4 UUID and then hashes its 16 bytes.
    pub fn new() -> (r: Id<T>)
        ensures
            exists|b: Seq<u8>| b.len() == 16 && r.value() == DefaultHasher::spec_finish(seq![b]),
    {
        let bytes = random_uuid_bytes();
        let mut hasher = DefaultHasher::new();
        hasher.write(bytes.as_slice());
        let id = hasher.finish();
        assert(hasher@ =~= seq![bytes@]);
        assert(bytes@.len() == 16);
        let r = Id { id, _type: PhantomData };
        assert(r.value() == DefaultHasher::spec_finish(seq![bytes@]));
        r
    }

    /// Constructs a new Id from the specified id
    #[verifier::allow_in_spec]
    pub fn from(id: u64) -> (r: Id<T>)
        ensures
            r.value() == id,
        returns
            Self::with_value(id),
    {
        Id { id: id, _type: PhantomData }
    }

    /// returns the id
    #[verifier::allow_in_spec]
    pub fn get(&self) -> (r: u64)
        returns
            self.value(),
    {
        self.id
    }

    /// The id in lower hex format.
    pub fn to_string(&self) -> (s: String)
        ensures
            s@ == hex_lower(self.value() as nat),
    {
        render_digits(self.id as u128, 16)
    }
}

impl<T: ?Sized> Clone for Id<T> {
    fn clone(&self) -> (r: Id<T>)
        ensures
            r.value() == self.value(),
    {
        Id { id: self.id, _type: PhantomData }
    }
}

impl<T: ?Sized> Copy for Id<T> {
}

impl<T: ?Sized> PartialEq for Id<T> {
    fn eq(&self, other: &Id<T>) -> (r: bool) {
        self.id == other.id
    }
}

impl<T: ?Sized> PartialEqSpecImpl for Id<T> {
    open spec fn obeys_eq_spec() -> bool {
        true
    }

    open spec fn eq_spec(&self, other: &Id<T>) -> bool {
        self.value() == other.value()
    }
}

impl<T: ?Sized> Eq for Id<T> {
}

impl<T: ?Sized> PartialOrd for Id<T> {
    fn partial_cmp(&self, other: &Id<T>) -> (r: Option<core::cmp::Ordering>) {
        if self.id < other.id {
            Some(core::cmp::Ordering::Less)
        } else if self.id == other.id {
            Some(core::cmp::Ordering::Equal)
        } else {
            Some(core::cmp::Ordering::Greater)
        }
    }
}

impl<T: ?Sized> PartialOrdSpecImpl for Id<T> {
    open spec fn obeys_partial_cmp_spec() -> bool {
        true
    }

    open spec fn partial_cmp_spec(&self, other: &Id<T>) -> Option<core::cmp::Ordering> {
        if self.value() < other.value() {
            Some(core::cmp::Ordering::Less)
        } else if self.value() == other.value() {
            Some(core::cmp::Ordering::Equal)
        } else {
            Some(core::cmp::Ordering::Greater)
        }
    }
}

/// Ids are equal exactly when their values are.
pub proof fn law_equal_by_value<T: ?Sized>(a: Id<T>, b: Id<T>)
    ensures
        PartialEqSpec::eq_spec(&a, &b) <==> a.value() == b.value(),
{
}

/// Ids are ordered by their values: exactly one of less, equal or greater holds, and the
/// order is the same seen from either side.
pub proof fn law_ordered_by_value<T: ?Sized>(a: Id<T>, b: Id<T>)
    ensures
        PartialOrdSpec::partial_cmp_spec(&a, &b) is Some,
        PartialOrdSpec::partial_cmp_spec(&a, &b) == Some(core::cmp::Ordering::Less) <==> a.value() < b.value(),
        PartialOrdSpec::partial_cmp_spec(&a, &b) == Some(core::cmp::Ordering::Equal) <==> a.value() == b.value(),
        PartialOrdSpec::partial_cmp_spec(&a, &b) == Some(core::cmp::Ordering::Greater) <==> a.value() > b.value(),
        PartialOrdSpec::partial_cmp_spec(&a, &b) == Some(core::cmp::Ordering::Less) <==> PartialOrdSpec::partial_cmp_spec(&b, &a) == Some(core::cmp::Ordering::Greater),
{
}

/// An id is nothing but its value, whatever type it identifies, sized or not (a trait object
/// too): `Id::from(n).get()` is `n`, `Id::from(id.get())` is `id`, and ids of equal value are
/// equal.
pub proof fn law_from_value<T: ?Sized>(a: Id<T>, b: Id<T>, n: u64)
    requires
        a.value() == b.value(),
    ensures
        a == b,
        Id::<T>::from(n).get() == n,
        Id::<T>::from(a.get()) == a,
{
}

} // verus!
