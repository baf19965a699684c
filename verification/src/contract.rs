//! The storage contract: creating, reading, updating and deleting records.
//!
//! Reading, updating and deleting have three outcomes, not two. `Ok(Some(_))`
//! says that the record was there and the operation was done. `Ok(None)` says
//! that the operation ran without fault and found no such record: absence is
//! an answer, not an error. `Err(_)` is kept for faults of operation, and a
//! caller who gets one knows nothing of the record. Creating has no absent
//! case: it gives the new identifier or fails.
//!
//! The traits are what an entity type implements over a blocking backend.
//! The `settle_*` functions are the same rules as functions on what a backend
//! replied, for code that talks to its backend in its own way.
//!
//! The library holds no records; a backend does. The predicates [`stores`],
//! [`fetches`], [`overwrites`] and [`removes`] say how a backend that keeps
//! its word replies, given the records that it holds: it holds what it says
//! it stored, and reports absence where, and only where, it holds nothing.
//! The laws at the end of the file hold over every such backend.

use crate::id::AssocId;
use vstd::prelude::*;

verus! {

/// A storage backend.
pub trait BackingStorage {
    /// The raw id by which the backend knows a record.
    type RawId;
}

/// Creating records of a type in the backend `S`.
pub trait Create<S: BackingStorage> {
    /// The fault that creating may end in.
    type Error;

    /// Stores `self` as a new record and gives its identifier.
    fn create(&self, storage: &S) -> Result<AssocId<Self, S::RawId>, Self::Error>;
}

/// Reading records of a type from the backend `S`.
pub trait Read<S: BackingStorage>: Sized {
    /// The fault that reading may end in.
    type Error;

    /// Fetches the record with this identifier; `Ok(None)` when there is none.
    fn read(storage: &S, id: &AssocId<Self, S::RawId>) -> Result<Option<Self>, Self::Error>;
}

/// Updating records of a type in the backend `S`.
pub trait Update<S: BackingStorage> {
    /// The fault that updating may end in.
    type Error;

    /// Overwrites the record with this identifier by `self`; `Ok(None)`, with
    /// nothing written, when there is none.
    fn update(&self, storage: &S, id: &AssocId<Self, S::RawId>) -> Result<Option<()>, Self::Error>;
}

/// Deleting records of a type from the backend `S`.
pub trait Delete<S: BackingStorage>: Sized {
    /// The fault that deleting may end in.
    type Error;

    /// Removes the record with this identifier; `Ok(None)` when there is none.
    fn delete(storage: &S, id: &AssocId<Self, S::RawId>) -> Result<Option<()>, Self::Error>;
}

/// Why a backend did not deliver.
#[derive(Debug, PartialEq, Eq)]
pub enum Fault<E> {
    /// The backend ran the request and reports that no such record exists.
    NotFound,
    /// The request failed.
    Failed(E),
}

/// The outcome of reading, given what the backend replied to the fetch.
pub open spec fn fetch_outcome<T, E>(reply: Result<T, Fault<E>>) -> Result<Option<T>, E> {
    match reply {
        Ok(record) => Ok(Some(record)),
        Err(Fault::NotFound) => Ok(None),
        Err(Fault::Failed(error)) => Err(error),
    }
}

/// The outcome of updating or deleting, given what the backend replied to
/// the write.
pub open spec fn write_outcome<R, E>(reply: Result<R, Fault<E>>) -> Result<Option<()>, E> {
    match reply {
        Ok(_) => Ok(Some(())),
        Err(Fault::NotFound) => Ok(None),
        Err(Fault::Failed(error)) => Err(error),
    }
}

/// The reply to a write that counts the records it wrote, with a count of
/// zero taken as the report that no such record exists.
pub open spec fn none_written_is_absent<E>(reply: Result<u64, Fault<E>>) -> Result<u64, Fault<E>> {
    match reply {
        Ok(count) => if count == 0 {
            Err(Fault::NotFound)
        } else {
            Ok(count)
        },
        Err(fault) => Err(fault),
    }
}

/// Takes a write that wrote no record as a report of absence.
///
/// Some backends do not fail when the record to write does not exist, and
/// report the number of records written instead. For such a backend this
/// makes the absence visible before the reply is settled.
pub fn absent_if_none_written<E>(reply: Result<u64, Fault<E>>) -> (seen: Result<u64, Fault<E>>)
    ensures
        seen == none_written_is_absent(reply),
{
    match reply {
        Ok(count) => if count == 0 {
            Err(Fault::NotFound)
        } else {
            Ok(count)
        },
        Err(fault) => Err(fault),
    }
}

/// Settles a read: the record that was fetched, `Ok(None)` where the backend
/// reports that there is none, and any other fault as it came.
pub fn settle_fetch<T, E>(reply: Result<T, Fault<E>>) -> (outcome: Result<Option<T>, E>)
    ensures
        outcome == fetch_outcome(reply),
{
    match reply {
        Ok(record) => Ok(Some(record)),
        Err(Fault::NotFound) => Ok(None),
        Err(Fault::Failed(error)) => Err(error),
    }
}

/// Settles an update or a delete: `Ok(Some(()))` where the backend did the
/// write, `Ok(None)` where it reports that there is no such record, and any
/// other fault as it came.
pub fn settle_write<R, E>(reply: Result<R, Fault<E>>) -> (outcome: Result<Option<()>, E>)
    ensures
        outcome == write_outcome(reply),
{
    match reply {
        Ok(_) => Ok(Some(())),
        Err(Fault::NotFound) => Ok(None),
        Err(Fault::Failed(error)) => Err(error),
    }
}

/// Settles a create: the identifier of the raw id that the backend gave, or
/// the fault as it came.
pub fn settle_create<T: ?Sized, RawId, E>(reply: Result<RawId, E>) -> (outcome: Result<
    AssocId<T, RawId>,
    E,
>)
    ensures
        reply matches Ok(raw) ==> (outcome matches Ok(id) && id.raw() == raw),
        reply matches Err(error) ==> outcome == Err::<AssocId<T, RawId>, E>(error),
{
    match reply {
        Ok(raw) => Ok(AssocId::new(raw)),
        Err(error) => Err(error),
    }
}

/// How a backend that keeps its word replies to storing `record` as a new
/// record: where it reports success under a raw id, it holds the record
/// under that id and has changed nothing else.
pub open spec fn stores<K, V, E>(
    before: Map<K, V>,
    after: Map<K, V>,
    record: V,
    reply: Result<K, E>,
) -> bool {
    reply matches Ok(id) ==> after == before.insert(id, record)
}

/// How a backend that keeps its word replies to fetching `id`: with the
/// record where it holds one, and with a report of absence only where it
/// holds none.
pub open spec fn fetches<K, V, E>(held: Map<K, V>, id: K, reply: Result<V, Fault<E>>) -> bool {
    match reply {
        Ok(record) => held.contains_key(id) && held[id] == record,
        Err(Fault::NotFound) => !held.contains_key(id),
        Err(Fault::Failed(_)) => true,
    }
}

/// How a backend that keeps its word and reports absence replies to
/// overwriting `id` by `record`.
pub open spec fn overwrites<K, V, R, E>(
    before: Map<K, V>,
    after: Map<K, V>,
    id: K,
    record: V,
    reply: Result<R, Fault<E>>,
) -> bool {
    match reply {
        Ok(_) => before.contains_key(id) && after == before.insert(id, record),
        Err(Fault::NotFound) => !before.contains_key(id) && after == before,
        Err(Fault::Failed(_)) => true,
    }
}

/// How a backend that keeps its word and reports absence replies to
/// removing `id`.
pub open spec fn removes<K, V, R, E>(
    before: Map<K, V>,
    after: Map<K, V>,
    id: K,
    reply: Result<R, Fault<E>>,
) -> bool {
    match reply {
        Ok(_) => before.contains_key(id) && after == before.remove(id),
        Err(Fault::NotFound) => !before.contains_key(id) && after == before,
        Err(Fault::Failed(_)) => true,
    }
}

/// Round trip: a record that was created is read back as it was stored.
///
/// If the backend stored `record` under `id`, a read of `id` that does not
/// fail gives `record`.
pub proof fn law_read_after_create<K, V, E>(
    before: Map<K, V>,
    after: Map<K, V>,
    record: V,
    id: K,
    fetched: Result<V, Fault<E>>,
)
    requires
        stores(before, after, record, Ok::<K, E>(id)),
        fetches(after, id, fetched),
    ensures
        fetch_outcome(fetched) is Ok ==> fetch_outcome(fetched) == Ok::<Option<V>, E>(
            Some(record),
        ),
{
}

/// Absence is reported, not failed on: for an id under which nothing is
/// held, reading, updating and deleting, if they do not fail, each give
/// `Ok(None)`, and updating and deleting leave the records as they were.
pub proof fn law_absent_is_none<K, V, R, E>(
    held: Map<K, V>,
    id: K,
    record: V,
    fetched: Result<V, Fault<E>>,
    after_update: Map<K, V>,
    overwritten: Result<R, Fault<E>>,
    after_delete: Map<K, V>,
    removed: Result<R, Fault<E>>,
)
    requires
        !held.contains_key(id),
        fetches(held, id, fetched),
        overwrites(held, after_update, id, record, overwritten),
        removes(held, after_delete, id, removed),
    ensures
        fetch_outcome(fetched) is Ok ==> fetch_outcome(fetched) == Ok::<Option<V>, E>(None),
        write_outcome(overwritten) is Ok ==> write_outcome(overwritten) == Ok::<Option<()>, E>(
            None,
        ) && after_update == held,
        write_outcome(removed) is Ok ==> write_outcome(removed) == Ok::<Option<()>, E>(None)
            && after_delete == held,
{
}

/// A deleted record is gone: after a delete of `id` that gave `Ok(Some(_))`,
/// a read of `id` that does not fail gives `Ok(None)`.
pub proof fn law_read_after_delete<K, V, R, E>(
    before: Map<K, V>,
    after: Map<K, V>,
    id: K,
    removed: Result<R, Fault<E>>,
    fetched: Result<V, Fault<E>>,
)
    requires
        removes(before, after, id, removed),
        write_outcome(removed) == Ok::<Option<()>, E>(Some(())),
        fetches(after, id, fetched),
    ensures
        fetch_outcome(fetched) is Ok ==> fetch_outcome(fetched) == Ok::<Option<V>, E>(None),
{
}

/// An update overwrites: after an update of `id` to `record` that gave
/// `Ok(Some(_))`, a read of `id` that does not fail gives `record` whole,
/// whatever was held under `id` before, and no other record has changed.
pub proof fn law_read_after_update<K, V, R, E>(
    before: Map<K, V>,
    after: Map<K, V>,
    id: K,
    record: V,
    overwritten: Result<R, Fault<E>>,
    fetched: Result<V, Fault<E>>,
)
    requires
        overwrites(before, after, id, record, overwritten),
        write_outcome(overwritten) == Ok::<Option<()>, E>(Some(())),
        fetches(after, id, fetched),
    ensures
        fetch_outcome(fetched) is Ok ==> fetch_outcome(fetched) == Ok::<Option<V>, E>(
            Some(record),
        ),
        forall|other: K| other != id ==> (after.contains_key(other) <==> before.contains_key(other)),
        forall|other: K| other != id && before.contains_key(other) ==> after[other] == before[other],
{
}

} // verus!
