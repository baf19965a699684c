//! Objects in an S3 style object storage, one bucket for all.
//!
//! The library does not talk to the storage. Each operation is given as the
//! request to send and a function from the storage's reply to the outcome,
//! and whoever holds the connection sends the one and hands back the other.
//! Updating takes two rounds, a probe and a write: between the two another
//! writer may delete the object, and the write then creates it again.

use crate::contract::{
    fetch_outcome, fetches, removes, settle_create, settle_fetch, settle_write, write_outcome,
    BackingStorage, Fault,
};
use crate::id::AssocId;
use crate::object::{bytes_contents, clone_bytes, Object};
use vstd::prelude::*;

verus! {

/// `minio::s3::Client`, the handle to the storage, taken as a type that
/// Verus does not look into.
#[verifier::external_type_specification]
#[verifier::external_body]
pub struct ExClient(minio::s3::Client);

/// `minio::s3::error::Error`, taken as a type that Verus does not look into.
#[verifier::external_type_specification]
#[verifier::external_body]
pub struct ExS3Error(minio::s3::error::Error);

/// An S3 storage, used through a single bucket.
pub struct S3Backing {
    /// The client of the storage.
    pub client: minio::s3::Client,
    /// The bucket to use.
    pub bucket: String,
}

impl BackingStorage for S3Backing {
    type RawId = String;
}

/// The number of random bytes in an identifier: 256 bits.
pub const SEED_LEN: usize = 32;

/// The text that `base64`'s `URL_SAFE` engine encodes `bytes` to.
pub uninterp spec fn url_safe_base64(bytes: Seq<u8>) -> Seq<char>;

/// Whether `c` may occur in a token of the URL-safe base64 alphabet with
/// padding: a letter, a digit, `-`, `_` or `=`.
pub open spec fn is_url_safe(c: char) -> bool {
    ||| 'A' <= c <= 'Z'
    ||| 'a' <= c <= 'z'
    ||| '0' <= c <= '9'
    ||| c == '-'
    ||| c == '_'
    ||| c == '='
}

/// Whether `id` could have been made by [`make_id`]: it encodes some 32 bytes.
pub open spec fn is_made_id(id: Seq<char>) -> bool {
    exists|seed: Seq<u8>| seed.len() == SEED_LEN && id == #[trigger] url_safe_base64(seed)
}

/// `rand::random` for 32 bytes, drawn from the generator of the thread.
/// Nothing is claimed of the bytes.
#[verifier::external_body]
fn random_seed() -> (seed: [u8; 32]) {
    rand::random()
}

/// `Engine::encode` of `base64`'s `URL_SAFE` engine on 32 bytes. The text is
/// a function of the bytes; for 32 bytes it has 44 characters (ten groups of
/// four and a padded group), each of the URL-safe alphabet or the padding
/// `=`. Believed from the crate's source, not proved.
#[verifier::external_body]
fn url_safe_encode(seed: &[u8; 32]) -> (text: String)
    ensures
        text@ == url_safe_base64(seed@),
        text@.len() == 44,
        forall|i: int| 0 <= i < text@.len() ==> is_url_safe(#[trigger] text@[i]),
{
    base64::Engine::encode(&base64::engine::general_purpose::URL_SAFE, seed)
}

/// `error` sorted by what it means for the record: a reply of the storage
/// with the code `NoSuchKey` is a report of absence, anything else a failure,
/// which is handed on as it is. Tells two variants of the crate's error enums
/// apart and claims nothing more.
#[verifier::external_body]
fn s3_fault(error: minio::s3::error::Error) -> (fault: Fault<minio::s3::error::Error>)
    ensures
        fault matches Fault::Failed(failed) ==> failed == error,
{
    match error {
        minio::s3::error::Error::S3Error(response)
            if matches!(response.code, minio::s3::error::ErrorCode::NoSuchKey) =>
        {
            Fault::NotFound
        },
        other => Fault::Failed(other),
    }
}

/// Sorts the reply of the storage: success stays, an error becomes a report
/// of absence or a failure that carries the error unchanged.
pub fn classify<R>(reply: Result<R, minio::s3::error::Error>) -> (sorted: Result<
    R,
    Fault<minio::s3::error::Error>,
>)
    ensures
        reply matches Ok(response) ==> sorted == Ok::<R, Fault<minio::s3::error::Error>>(response),
        reply matches Err(error) ==> sorted is Err && (sorted matches Err(Fault::Failed(failed))
            ==> failed == error),
{
    match reply {
        Ok(response) => Ok(response),
        Err(error) => Err(s3_fault(error)),
    }
}

/// Encodes a seed as an identifier.
pub fn id_of_seed(seed: &[u8; 32]) -> (id: String)
    ensures
        id@ == url_safe_base64(seed@),
        is_made_id(id@),
        id@.len() == 44,
        forall|i: int| 0 <= i < id@.len() ==> is_url_safe(#[trigger] id@[i]),
{
    url_safe_encode(seed)
}

/// Makes a fresh identifier: 256 random bits in URL-safe base64.
///
/// The identifier is a token of 44 characters that is safe as an object
/// key. That two identifiers differ is a matter of chance and is not checked.
pub fn make_id() -> (id: String)
    ensures
        is_made_id(id@),
        id@.len() == 44,
        forall|i: int| 0 <= i < id@.len() ==> is_url_safe(#[trigger] id@[i]),
{
    let seed = random_seed();
    id_of_seed(&seed)
}

/// The request to store `data` under `key`, over whatever is there.
#[derive(Debug)]
pub struct PutObject {
    /// The bucket to write to.
    pub bucket: String,
    /// The key to write under.
    pub key: String,
    /// The bytes to store.
    pub data: bytes::Bytes,
}

/// The request to fetch what is stored under `key`.
#[derive(Debug)]
pub struct GetObject {
    /// The bucket to read from.
    pub bucket: String,
    /// The key to read.
    pub key: String,
}

/// The request to remove what is stored under `key`.
#[derive(Debug)]
pub struct DeleteObject {
    /// The bucket to remove from.
    pub bucket: String,
    /// The key to remove.
    pub key: String,
}

/// The view of a [`PutObject`].
pub struct PutObjectView {
    pub bucket: Seq<char>,
    pub key: Seq<char>,
    pub data: Seq<u8>,
}

/// The view of a [`GetObject`] and of a [`DeleteObject`].
pub struct KeyView {
    pub bucket: Seq<char>,
    pub key: Seq<char>,
}

impl View for PutObject {
    type V = PutObjectView;

    open spec fn view(&self) -> PutObjectView {
        PutObjectView { bucket: self.bucket@, key: self.key@, data: bytes_contents(self.data) }
    }
}

impl View for GetObject {
    type V = KeyView;

    open spec fn view(&self) -> KeyView {
        KeyView { bucket: self.bucket@, key: self.key@ }
    }
}

impl View for DeleteObject {
    type V = KeyView;

    open spec fn view(&self) -> KeyView {
        KeyView { bucket: self.bucket@, key: self.key@ }
    }
}

/// Where an update stands after its probe.
#[derive(Debug)]
pub enum Probed<E> {
    /// The object is there: send this write next.
    Write(PutObject),
    /// The update is over, with this outcome, and nothing is to be written.
    Settled(Result<Option<()>, E>),
}

/// The reply to a fetch as a reply that carries an object.
pub open spec fn object_reply<E>(reply: Result<bytes::Bytes, Fault<E>>) -> Result<Object, Fault<E>> {
    match reply {
        Ok(data) => Ok(Object { data }),
        Err(fault) => Err(fault),
    }
}

/// The outcome of an update whose write was sent, given the reply to it.
pub open spec fn put_outcome<R, E>(reply: Result<R, E>) -> Result<Option<()>, E> {
    match reply {
        Ok(_) => Ok(Some(())),
        Err(error) => Err(error),
    }
}

/// The outcome of an update that is over after its probe, with nothing
/// written: `Ok(None)` where the storage reports that there is no such key,
/// the failure where the probe failed. `None` where the probe found the
/// object, and the update goes on to its write.
pub open spec fn probe_outcome<P, E>(probe: Result<P, Fault<E>>) -> Option<Result<Option<()>, E>> {
    match probe {
        Ok(_) => None,
        Err(Fault::NotFound) => Some(Ok(None)),
        Err(Fault::Failed(error)) => Some(Err(error)),
    }
}

/// The outcome of an update, given the reply to its probe and, where the
/// probe found the object, the reply to its write.
pub open spec fn update_outcome<P, R, E>(probe: Result<P, Fault<E>>, put: Result<R, E>) -> Result<
    Option<()>,
    E,
> {
    match probe_outcome(probe) {
        Some(outcome) => outcome,
        None => put_outcome(put),
    }
}

impl Object {
    /// Starts creating the object: the request to store it under a fresh
    /// identifier.
    pub fn create(&self, storage: &S3Backing) -> (request: PutObject)
        ensures
            request@.bucket == storage.bucket@,
            request@.data == self@,
            is_made_id(request@.key),
            request@.key.len() == 44,
            forall|i: int| 0 <= i < request@.key.len() ==> is_url_safe(#[trigger] request@.key[i]),
    {
        self.create_as(storage, make_id())
    }

    /// Starts creating the object under the identifier `key`.
    pub fn create_as(&self, storage: &S3Backing, key: String) -> (request: PutObject)
        ensures
            request@ == (PutObjectView { bucket: storage.bucket@, key: key@, data: self@ }),
    {
        PutObject { bucket: storage.bucket.clone(), key, data: clone_bytes(&self.data) }
    }

    /// Ends creating: the identifier of the name under which the storage says
    /// it stored the object, or the failure as it came.
    pub fn created<E>(reply: Result<String, E>) -> (outcome: Result<AssocId<Object, String>, E>)
        ensures
            reply matches Ok(name) ==> (outcome matches Ok(id) && id.raw() == name),
            reply matches Err(error) ==> outcome == Err::<AssocId<Object, String>, E>(error),
    {
        settle_create(reply)
    }

    /// Starts reading: the request to fetch the object of `id`.
    pub fn read(storage: &S3Backing, id: &AssocId<Object, String>) -> (request: GetObject)
        ensures
            request@ == (KeyView { bucket: storage.bucket@, key: id.raw()@ }),
    {
        GetObject { bucket: storage.bucket.clone(), key: id.as_raw().clone() }
    }

    /// Ends reading: the object of the bytes that were fetched, `Ok(None)`
    /// where the storage reports that there is no such key, and any other
    /// failure as it came.
    pub fn fetched<E>(reply: Result<bytes::Bytes, Fault<E>>) -> (outcome: Result<Option<Object>, E>)
        ensures
            outcome == fetch_outcome(object_reply(reply)),
    {
        settle_fetch(
            match reply {
                Ok(data) => Ok(Object { data }),
                Err(fault) => Err(fault),
            },
        )
    }

    /// Starts updating: the probe that tells whether the object of `id` is
    /// there.
    pub fn update(&self, storage: &S3Backing, id: &AssocId<Object, String>) -> (request:
        GetObject)
        ensures
            request@ == (KeyView { bucket: storage.bucket@, key: id.raw()@ }),
    {
        GetObject { bucket: storage.bucket.clone(), key: id.as_raw().clone() }
    }

    /// Goes on with an update after its probe.
    ///
    /// Where the probe found the object, the object is to be overwritten by
    /// `self` under the same key. Where the storage reports that there is no
    /// such key, the update is over with `Ok(None)` and nothing is written.
    /// Where the probe failed in any other way, the update is over with that
    /// failure and nothing is written.
    pub fn probed<P, E>(
        &self,
        storage: &S3Backing,
        id: &AssocId<Object, String>,
        reply: Result<P, Fault<E>>,
    ) -> (next: Probed<E>)
        ensures
            probe_outcome(reply) matches Some(outcome) ==> next == Probed::Settled(outcome),
            probe_outcome(reply) is None ==> (next matches Probed::Write(request) && request@
                == (PutObjectView { bucket: storage.bucket@, key: id.raw()@, data: self@ })),
    {
        match reply {
            Ok(_) => Probed::Write(self.create_as(storage, id.as_raw().clone())),
            Err(Fault::NotFound) => Probed::Settled(Ok(None)),
            Err(Fault::Failed(error)) => Probed::Settled(Err(error)),
        }
    }

    /// Ends an update whose write was sent: `Ok(Some(()))` where the storage
    /// stored the object, else the failure as it came.
    pub fn updated<R, E>(reply: Result<R, E>) -> (outcome: Result<Option<()>, E>)
        ensures
            outcome == put_outcome(reply),
    {
        match reply {
            Ok(_) => Ok(Some(())),
            Err(error) => Err(error),
        }
    }

    /// Starts deleting: the request to remove the object of `id`.
    pub fn delete(storage: &S3Backing, id: &AssocId<Object, String>) -> (request:
        DeleteObject)
        ensures
            request@ == (KeyView { bucket: storage.bucket@, key: id.raw()@ }),
    {
        DeleteObject { bucket: storage.bucket.clone(), key: id.as_raw().clone() }
    }

    /// Ends deleting: `Ok(Some(()))` where the storage removed the object,
    /// `Ok(None)` where it reports that there is no such key, and any other
    /// failure as it came.
    pub fn deleted<R, E>(reply: Result<R, Fault<E>>) -> (outcome: Result<Option<()>, E>)
        ensures
            outcome == write_outcome(reply),
    {
        settle_write(reply)
    }
}

/// The objects of a bucket: the bytes stored under each key.
pub type Bucket = Map<Seq<char>, Seq<u8>>;

/// The reply to a fetch, seen as the bytes that it carries.
pub open spec fn fetched_bytes<E>(reply: Result<bytes::Bytes, Fault<E>>) -> Result<
    Seq<u8>,
    Fault<E>,
> {
    match reply {
        Ok(data) => Ok(bytes_contents(data)),
        Err(fault) => Err(fault),
    }
}

/// How a bucket that keeps its word replies to a write of `data` under
/// `key`: where it reports success, it names the key, holds `data` under it
/// and has changed nothing else.
pub open spec fn puts<E>(
    before: Bucket,
    after: Bucket,
    key: Seq<char>,
    data: Seq<u8>,
    reply: Result<String, E>,
) -> bool {
    reply matches Ok(name) ==> name@ == key && after == before.insert(key, data)
}

/// How a bucket that keeps its word and reports absence replies to a probe
/// of `key`.
pub open spec fn probes<P, E>(held: Bucket, key: Seq<char>, reply: Result<P, Fault<E>>) -> bool {
    match reply {
        Ok(_) => held.contains_key(key),
        Err(Fault::NotFound) => !held.contains_key(key),
        Err(Fault::Failed(_)) => true,
    }
}

/// Round trip through a bucket that keeps its word: an object that was
/// created under `key` is read back with the bytes that it was created with.
pub proof fn law_object_round_trip<E>(
    before: Bucket,
    after: Bucket,
    key: Seq<char>,
    object: Object,
    put: Result<String, E>,
    get: Result<bytes::Bytes, Fault<E>>,
)
    requires
        put is Ok,
        puts(before, after, key, object@, put),
        fetches(after, key, fetched_bytes(get)),
    ensures
        fetch_outcome(object_reply(get)) matches Ok(read) ==> (read matches Some(back) && back@
            == object@),
{
}

/// An object that is not there is reported so by every operation that does
/// not fail, and neither updating nor deleting it writes anything.
pub proof fn law_object_absent_is_none<P, R, E>(
    held: Bucket,
    key: Seq<char>,
    object: Object,
    get: Result<bytes::Bytes, Fault<E>>,
    probe: Result<P, Fault<E>>,
    put: Result<String, E>,
    after_update: Bucket,
    removed: Result<R, Fault<E>>,
    after_delete: Bucket,
)
    requires
        !held.contains_key(key),
        fetches(held, key, fetched_bytes(get)),
        probes(held, key, probe),
        probe is Ok ==> puts(held, after_update, key, object@, put),
        probe is Err ==> after_update == held,
        removes(held, after_delete, key, removed),
    ensures
        fetch_outcome(object_reply(get)) is Ok ==> fetch_outcome(object_reply(get)) == Ok::<
            Option<Object>,
            E,
        >(None),
        update_outcome(probe, put) is Ok ==> update_outcome(probe, put) == Ok::<Option<()>, E>(
            None,
        ) && after_update == held,
        write_outcome(removed) is Ok ==> write_outcome(removed) == Ok::<Option<()>, E>(None)
            && after_delete == held,
{
}

/// An object that was deleted is gone: a read after a delete that gave
/// `Ok(Some(_))`, if it does not fail, gives `Ok(None)`.
pub proof fn law_object_read_after_delete<R, E>(
    before: Bucket,
    after: Bucket,
    key: Seq<char>,
    removed: Result<R, Fault<E>>,
    get: Result<bytes::Bytes, Fault<E>>,
)
    requires
        removes(before, after, key, removed),
        write_outcome(removed) == Ok::<Option<()>, E>(Some(())),
        fetches(after, key, fetched_bytes(get)),
    ensures
        fetch_outcome(object_reply(get)) is Ok ==> fetch_outcome(object_reply(get)) == Ok::<
            Option<Object>,
            E,
        >(None),
{
}

/// An update overwrites the whole object: a read after an update that gave
/// `Ok(Some(_))`, if it does not fail, gives the bytes of the update.
pub proof fn law_object_read_after_update<P, E>(
    before: Bucket,
    after: Bucket,
    key: Seq<char>,
    object: Object,
    probe: Result<P, Fault<E>>,
    put: Result<String, E>,
    get: Result<bytes::Bytes, Fault<E>>,
)
    requires
        probes(before, key, probe),
        probe is Ok ==> puts(before, after, key, object@, put),
        probe is Err ==> after == before,
        update_outcome(probe, put) == Ok::<Option<()>, E>(Some(())),
        fetches(after, key, fetched_bytes(get)),
    ensures
        fetch_outcome(object_reply(get)) matches Ok(read) ==> (read matches Some(back) && back@
            == object@),
{
}

} // verus!
