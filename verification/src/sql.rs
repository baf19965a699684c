//! The SQL backend: a pool of connections, and the outcome of each operation
//! given what the database replied.
//!
//! A query that is to return a row and returns none fails with the error
//! `RowNotFound`: that error is the database's report of absence. An update
//! returns no row and does not fail where it matches none; there the report
//! of absence is that it wrote no row.

use crate::contract::{
    absent_if_none_written, settle_create, settle_fetch, settle_write, BackingStorage, Fault,
};
use crate::id::AssocId;
use core::marker::PhantomData;
use vstd::prelude::*;

verus! {

/// `sqlx::Error`, taken as a type that Verus does not look into.
#[verifier::external_type_specification]
#[verifier::external_body]
pub struct ExSqlError(sqlx::Error);

/// An SQL storage: a pool of connections to a database whose rows go by raw
/// ids of type `RawId`.
#[derive(Debug)]
pub struct SqlBacking<Pool, RawId> {
    /// The pool of connections.
    pub pool: Pool,
    phantom: PhantomData<RawId>,
}

impl<Pool, RawId> SqlBacking<Pool, RawId> {
    /// The pool that the storage holds.
    pub closed spec fn connections(&self) -> Pool {
        self.pool
    }

    /// Makes the storage of a pool.
    pub fn new(pool: Pool) -> (storage: Self)
        ensures
            storage.connections() == pool,
    {
        Self { pool, phantom: PhantomData }
    }
}

impl<Pool: Clone, RawId> Clone for SqlBacking<Pool, RawId> {
    fn clone(&self) -> (copy: Self)
        ensures
            cloned(self.connections(), copy.connections()),
    {
        Self { pool: self.pool.clone(), phantom: PhantomData }
    }
}

impl<Pool, RawId> BackingStorage for SqlBacking<Pool, RawId> {
    type RawId = RawId;
}

/// `error` sorted by what it means for the record: `RowNotFound` is a report
/// of absence, anything else a failure, which is handed on as it is. Tells
/// one variant of `sqlx::Error` from the others and claims nothing more.
#[verifier::external_body]
fn sql_fault(error: sqlx::Error) -> (fault: Fault<sqlx::Error>)
    ensures
        fault matches Fault::Failed(failed) ==> failed == error,
{
    match error {
        sqlx::Error::RowNotFound => Fault::NotFound,
        other => Fault::Failed(other),
    }
}

/// Sorts the reply of the database: success stays, an error becomes a report
/// of absence or a failure that carries the error unchanged.
pub fn classify<R>(reply: Result<R, sqlx::Error>) -> (sorted: Result<R, Fault<sqlx::Error>>)
    ensures
        reply matches Ok(response) ==> sorted == Ok::<R, Fault<sqlx::Error>>(response),
        reply matches Err(error) ==> sorted is Err && (sorted matches Err(Fault::Failed(failed))
            ==> failed == error),
{
    match reply {
        Ok(response) => Ok(response),
        Err(error) => Err(sql_fault(error)),
    }
}

/// The outcome of creating, given the reply to the insert: the identifier of
/// the raw id that the database assigned, or the error as it came.
pub fn created<T: ?Sized, RawId>(reply: Result<RawId, sqlx::Error>) -> (outcome: Result<
    AssocId<T, RawId>,
    sqlx::Error,
>)
    ensures
        reply matches Ok(raw) ==> (outcome matches Ok(id) && id.raw() == raw),
        reply matches Err(error) ==> outcome == Err::<AssocId<T, RawId>, sqlx::Error>(error),
{
    settle_create(reply)
}

/// The outcome of reading, given the reply to the select: the row, `Ok(None)`
/// where the database reports that there is no such row, or the error as it
/// came.
pub fn fetched<T>(reply: Result<T, sqlx::Error>) -> (outcome: Result<Option<T>, sqlx::Error>)
    ensures
        reply matches Ok(row) ==> outcome == Ok::<Option<T>, sqlx::Error>(Some(row)),
        reply matches Err(error) ==> outcome == Ok::<Option<T>, sqlx::Error>(None) || outcome
            == Err::<Option<T>, sqlx::Error>(error),
{
    settle_fetch(classify(reply))
}

/// The outcome of updating, given how many rows the update wrote:
/// `Ok(Some(()))` where it wrote a row, `Ok(None)` where it wrote none or the
/// database reports that there is no such row, or the error as it came.
pub fn updated(reply: Result<u64, sqlx::Error>) -> (outcome: Result<Option<()>, sqlx::Error>)
    ensures
        reply matches Ok(rows) ==> outcome == if rows == 0 {
            Ok::<Option<()>, sqlx::Error>(None)
        } else {
            Ok::<Option<()>, sqlx::Error>(Some(()))
        },
        reply matches Err(error) ==> outcome == Ok::<Option<()>, sqlx::Error>(None) || outcome
            == Err::<Option<()>, sqlx::Error>(error),
{
    settle_write(absent_if_none_written(classify(reply)))
}

/// The outcome of deleting, given the reply to the delete, which returns the
/// row that it removed: that row, `Ok(None)` where the database reports that
/// there is no such row, or the error as it came.
pub fn deleted<T>(reply: Result<T, sqlx::Error>) -> (outcome: Result<Option<T>, sqlx::Error>)
    ensures
        reply matches Ok(row) ==> outcome == Ok::<Option<T>, sqlx::Error>(Some(row)),
        reply matches Err(error) ==> outcome == Ok::<Option<T>, sqlx::Error>(None) || outcome
            == Err::<Option<T>, sqlx::Error>(error),
{
    settle_fetch(classify(reply))
}

} // verus!
