//! Typed identifiers.

use core::marker::PhantomData;
use vstd::prelude::*;
use vstd::std_specs::cmp::{PartialEqSpec, PartialEqSpecImpl};

verus! {

/// The identifier of a record of type `T`: the raw id that the backend knows
/// the record by, tied at compile time to the type of the record.
///
/// The tie to `T` exists in the type alone. At run time an identifier is its
/// raw id, and two identifiers are equal exactly when their raw ids are.
#[derive(Debug)]
pub struct AssocId<T: ?Sized, RawId> {
    inner: RawId,
    phantom: PhantomData<T>,
}

impl<T: ?Sized, RawId> AssocId<T, RawId> {
    /// The raw id that this identifier wraps.
    pub closed spec fn raw(&self) -> RawId {
        self.inner
    }

    /// Wraps a raw id.
    pub fn new(raw: RawId) -> (id: Self)
        ensures
            id.raw() == raw,
    {
        Self { inner: raw, phantom: PhantomData }
    }

    /// Borrows the raw id.
    pub fn as_raw(&self) -> (raw: &RawId)
        ensures
            *raw == self.raw(),
    {
        &self.inner
    }

    /// An identifier is its raw id and nothing more: identifiers with the
    /// same raw id are the same identifier.
    pub proof fn law_raw_id_decides(a: Self, b: Self)
        ensures
            a == b <==> a.raw() == b.raw(),
    {
    }
}

impl<T: ?Sized, RawId: PartialEq> PartialEq for AssocId<T, RawId> {
    fn eq(&self, other: &Self) -> (r: bool) {
        self.inner == other.inner
    }
}

impl<T: ?Sized, RawId: PartialEq> PartialEqSpecImpl for AssocId<T, RawId> {
    open spec fn obeys_eq_spec() -> bool {
        RawId::obeys_eq_spec()
    }

    open spec fn eq_spec(&self, other: &Self) -> bool {
        self.raw().eq_spec(&other.raw())
    }
}

impl<T: ?Sized, RawId: Eq> Eq for AssocId<T, RawId> {

}

} // verus!
