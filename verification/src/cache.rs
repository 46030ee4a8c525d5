//! A keyed cache of encoded messages in an embedded store.
//!
//! A key maps to the encoding of the message stored under it last. Reading
//! decodes; bytes that do not decode count as absent.

use crate::envelope::Message;
use crate::wire::EncodeError;
use vstd::prelude::*;
use vstd::utf8::encode_utf8;

verus! {

#[verifier::external_type_specification]
#[verifier::external_body]
pub struct ExDb(sled::Db);

#[verifier::external_type_specification]
#[verifier::external_body]
pub struct ExStoreError(sled::Error);

/// The entries of a store: the value last inserted under each key.
pub uninterp spec fn db_contents(db: sled::Db) -> Map<Seq<u8>, Seq<u8>>;

/// The settings that a store was made with; they stay as they are while it
/// is open.
pub uninterp spec fn db_settings(db: sled::Db) -> StoreSettings;

/// The value under a key, if any.
pub open spec fn lookup(contents: Map<Seq<u8>, Seq<u8>>, key: Seq<u8>) -> Option<Seq<u8>> {
    if contents.contains_key(key) {
        Some(contents[key])
    } else {
        None
    }
}

/// The view of optional bytes.
pub open spec fn bytes_view(bytes: Option<Vec<u8>>) -> Option<Seq<u8>> {
    match bytes {
        Some(v) => Some(v@),
        None => None,
    }
}

/// Opens the store at a path with `sled::Config::open`, with the given flush
/// interval and cache budget. Claimed: a store that opens was made with that
/// path and interval and with a budget no larger than the one given, which
/// the machine's memory limit may lower. A budget below 256 bytes is left
/// out: the store's cache refuses it with a panic. Nothing is claimed of what
/// the store holds, which is what earlier runs left there.
#[verifier::external_body]
fn db_open(path: &str, flush_every_ms: u64, cache_capacity: u64) -> (r: Result<
    sled::Db,
    sled::Error,
>)
    requires
        cache_capacity >= 256,
    ensures
        r matches Ok(db) ==> db_settings(db).path == path@ && db_settings(db).flush_every_ms
            == Some(flush_every_ms) && db_settings(db).cache_capacity <= cache_capacity,
{
    sled::Config::new().path(path).flush_every_ms(Some(flush_every_ms)).cache_capacity(
        cache_capacity,
    ).open()
}

/// Inserts with `sled::Tree::insert`. Claimed of a store that only this handle
/// changes: on success the key holds the new value, every other key what it
/// held, and the value the key held before is returned; the settings stay.
#[verifier::external_body]
fn db_insert(db: &mut sled::Db, key: &[u8], value: Vec<u8>) -> (r: Result<
    Option<Vec<u8>>,
    sled::Error,
>)
    ensures
        db_settings(*final(db)) == db_settings(*old(db)),
        r matches Ok(last) ==> db_contents(*final(db)) == db_contents(*old(db)).insert(
            key@,
            value@,
        ) && bytes_view(last) == lookup(db_contents(*old(db)), key@),
{
    db.insert(key, value).map(|last| last.map(|ivec| ivec.to_vec()))
}

/// Reads with `sled::Tree::get`. Claimed: on success the value under the key,
/// if any, is returned.
#[verifier::external_body]
fn db_get(db: &sled::Db, key: &[u8]) -> (r: Result<Option<Vec<u8>>, sled::Error>)
    ensures
        r matches Ok(value) ==> bytes_view(value) == lookup(db_contents(*db), key@),
{
    db.get(key).map(|value| value.map(|ivec| ivec.to_vec()))
}

/// Why a cache operation failed.
#[derive(Debug)]
pub enum CacheError {
    /// The store reported a failure.
    Store(sled::Error),
    /// The message has no encoding.
    Encode(EncodeError),
}

pub type CacheResult<T> = Result<T, CacheError>;

/// Milliseconds between two flushes of the store to disk.
pub const FLUSH_EVERY_MS: u64 = 1000;

/// Bytes of memory that the store may use for its own cache.
pub const CACHE_CAPACITY: u64 = 52_428_800;

/// The message stored under a key: what the bytes there decode to, and
/// nothing where the key is absent or its bytes do not decode.
pub open spec fn stored<M: Message>(contents: Map<Seq<u8>, Seq<u8>>, key: Seq<u8>) -> Option<M::V> {
    decoded::<M>(lookup(contents, key))
}

/// The view of an optional message.
pub open spec fn message_view<M: Message>(msg: Option<M>) -> Option<M::V> {
    match msg {
        Some(m) => Some(m@),
        None => None,
    }
}

/// The cache: a store that it alone changes and that outlives every request.
pub struct Cache {
    db: sled::Db,
}

impl View for Cache {
    type V = Map<Seq<u8>, Seq<u8>>;

    closed spec fn view(&self) -> Map<Seq<u8>, Seq<u8>> {
        db_contents(self.db)
    }
}

impl Cache {
    /// What the store of the cache was made with.
    pub closed spec fn settings(&self) -> StoreSettings {
        db_settings(self.db)
    }

    /// A cache over an open store.
    pub fn new(db: sled::Db) -> (cache: Cache)
        ensures
            cache@ == db_contents(db),
            cache.settings() == db_settings(db),
    {
        Cache { db }
    }

    /// Opens the cache at a path, creating the store where there is none. A
    /// cache that opens keeps its store at that path, has it flushed every
    /// second and grants it at most the budget; a store that does not open is
    /// the failure that is returned.
    pub fn open(path: &str) -> (r: CacheResult<Cache>)
        ensures
            match r {
                Ok(cache) => cache.settings().path == path@ && cache.settings().flush_every_ms
                    == Some(FLUSH_EVERY_MS) && cache.settings().cache_capacity <= CACHE_CAPACITY,
                Err(e) => e is Store,
            },
    {
        Cache::opened(db_open(path, FLUSH_EVERY_MS, CACHE_CAPACITY))
    }

    /// The cache over a store that opened, or the failure of one that did not.
    pub fn opened(store: Result<sled::Db, sled::Error>) -> (r: CacheResult<Cache>)
        ensures
            match store {
                Ok(db) => r matches Ok(cache) && cache@ == db_contents(db) && cache.settings()
                    == db_settings(db),
                Err(e) => r matches Err(CacheError::Store(cause)) && cause == e,
            },
    {
        match store {
            Ok(db) => Ok(Cache::new(db)),
            Err(e) => Err(CacheError::Store(e)),
        }
    }

    /// Stores a message under a key and returns the message that was there.
    ///
    /// A message without an encoding is refused and the cache is unchanged.
    pub fn insert_msg<M: Message>(&mut self, key: &str, msg: M) -> (r: CacheResult<Option<M>>)
        ensures
            final(self).settings() == old(self).settings(),
            match M::encoding(msg@) {
                Err(e) => final(self)@ == old(self)@ && (r matches Err(CacheError::Encode(cause))
                    && cause == e),
                Ok(bytes) => match r {
                    Ok(last) => final(self)@ == old(self)@.insert(encode_utf8(key@), bytes)
                        && message_view(last) == stored::<M>(old(self)@, encode_utf8(key@)),
                    Err(e) => e is Store,
                },
            },
    {
        let key_bytes = key.as_bytes();
        let value = match msg.write_to_bytes() {
            Ok(value) => value,
            Err(e) => {
                return Err(CacheError::Encode(e));
            },
        };
        reply(db_insert(&mut self.db, key_bytes, value))
    }

    /// Reads the message stored under a key.
    pub fn get_msg<M: Message>(&self, key: &str) -> (r: CacheResult<Option<M>>)
        ensures
            match r {
                Ok(msg) => message_view(msg) == stored::<M>(self@, encode_utf8(key@)),
                Err(e) => e is Store,
            },
    {
        let key_bytes = key.as_bytes();
        reply(db_get(&self.db, key_bytes))
    }
}

/// The message that bytes from the store hold: nothing where there are none
/// or where they do not decode.
pub open spec fn decoded<M: Message>(value: Option<Seq<u8>>) -> Option<M::V> {
    match value {
        Some(bytes) => match M::decoding(bytes) {
            Ok(v) => Some(v),
            Err(_) => None,
        },
        None => None,
    }
}

/// Turns the reply of the store into the answer of the cache: bytes that it
/// found are decoded, and bytes that do not decode are a miss; a failure of
/// the store is handed on as it is.
pub fn reply<M: Message>(store: Result<Option<Vec<u8>>, sled::Error>) -> (r: CacheResult<
    Option<M>,
>)
    ensures
        match store {
            Ok(value) => r matches Ok(msg) && message_view(msg) == decoded::<M>(bytes_view(value)),
            Err(e) => r matches Err(CacheError::Store(cause)) && cause == e,
        },
{
    match store {
        Ok(Some(bytes)) => match M::parse_from_bytes(bytes.as_slice()) {
            Ok(m) => Ok(Some(m)),
            Err(_) => Ok(None),
        },
        Ok(None) => Ok(None),
        Err(e) => Err(CacheError::Store(e)),
    }
}

/// What a store was made with: where it lives, how many milliseconds pass
/// between two flushes to disk, if it flushes by itself, and how many bytes
/// of memory its own cache may take.
pub struct StoreSettings {
    pub path: Seq<char>,
    pub flush_every_ms: Option<u64>,
    pub cache_capacity: u64,
}

/// After two inserts under one key, the second insert has returned the first
/// message and the key holds the second.
pub proof fn lemma_insert_insert_get<M: Message>(
    contents: Map<Seq<u8>, Seq<u8>>,
    key: Seq<u8>,
    v1: M::V,
    v2: M::V,
)
    requires
        M::encoding(v1) is Ok,
        M::encoding(v2) is Ok,
    ensures
        ({
            let after_first = contents.insert(key, M::encoding(v1)->Ok_0);
            let after_second = after_first.insert(key, M::encoding(v2)->Ok_0);
            &&& stored::<M>(after_first, key) == Some(v1)
            &&& stored::<M>(after_second, key) == Some(v2)
        }),
{
    M::lemma_round_trip(v1);
    M::lemma_round_trip(v2);
}

/// A key that was never inserted holds no message.
pub proof fn lemma_get_absent<M: Message>(contents: Map<Seq<u8>, Seq<u8>>, key: Seq<u8>)
    requires
        !contents.contains_key(key),
    ensures
        stored::<M>(contents, key) is None,
        stored::<M>(Map::empty(), key) is None,
{
}

} // verus!
