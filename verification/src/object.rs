//! Objects: records that are one blob of bytes.

use vstd::prelude::*;
use vstd::std_specs::cmp::PartialEqSpecImpl;

verus! {

/// `bytes::Bytes`, a shared chunk of bytes, taken as a type that Verus does
/// not look into.
#[verifier::external_type_specification]
#[verifier::external_body]
pub struct ExBytes(bytes::Bytes);

/// The bytes that a `bytes::Bytes` holds, in order.
pub uninterp spec fn bytes_contents(data: bytes::Bytes) -> Seq<u8>;

/// `Clone::clone` of `bytes::Bytes`: the clone shares the buffer of the value
/// that it was made from, and so holds the same bytes. Believed from the
/// crate's source, not proved.
#[verifier::external_body]
pub(crate) fn clone_bytes(data: &bytes::Bytes) -> (copy: bytes::Bytes)
    ensures
        bytes_contents(copy) == bytes_contents(*data),
{
    data.clone()
}

/// `PartialEq::eq` of `bytes::Bytes`, which compares the two as slices: they
/// are equal exactly when they hold the same bytes. Believed from the crate's
/// source, not proved.
#[verifier::external_body]
pub(crate) fn same_bytes(a: &bytes::Bytes, b: &bytes::Bytes) -> (same: bool)
    ensures
        same == (bytes_contents(*a) == bytes_contents(*b)),
{
    a == b
}

/// An object: a record that is a blob of bytes, opaque to the storage.
#[derive(Debug)]
pub struct Object {
    /// The data in the object.
    pub data: bytes::Bytes,
}

impl View for Object {
    type V = Seq<u8>;

    open spec fn view(&self) -> Seq<u8> {
        bytes_contents(self.data)
    }
}

impl PartialEq for Object {
    fn eq(&self, other: &Object) -> (r: bool) {
        same_bytes(&self.data, &other.data)
    }
}

impl PartialEqSpecImpl for Object {
    open spec fn obeys_eq_spec() -> bool {
        true
    }

    open spec fn eq_spec(&self, other: &Object) -> bool {
        self@ == other@
    }
}

} // verus!
