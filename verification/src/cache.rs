//! The concurrent, capacity-bounded memo table from (algorithm code, word)
//! to stem: a least-recently-used map behind a mutex, shared by handle.

use vstd::prelude::*;

use crate::snowball::stem_of;
use lru::LruCache;
use std::num::NonZeroUsize;
use std::sync::Arc;
use std::sync::Mutex;

verus! {

/// A handle on one bounded memo table. Cloning the handle shares the same
/// underlying storage, so any number of threads and stemmers can work
/// against one table; the mutex inside serializes each single operation.
///
/// Every value the table ever stores goes in through [`CacheStore::put`],
/// whose precondition pins it to the stem of its key; that discipline is
/// what lets [`CacheStore::get`] promise the value of whatever it returns.
#[verifier::external_body]
pub struct CacheStore {
    inner: Arc<Mutex<LruCache<(u8, String), String>>>,
}

/// The maximum number of entries the table behind this handle can hold,
/// fixed when the table was created.
pub uninterp spec fn cache_capacity(c: CacheStore) -> nat;

impl CacheStore {
    /// Relies on `lru::LruCache::new`: the cache is created empty with the
    /// given fixed capacity, which it never exceeds for its whole life.
    #[verifier::external_body]
    pub fn new(capacity: usize) -> (r: CacheStore)
        requires
            1 <= capacity,
        ensures
            cache_capacity(r) == capacity,
    {
        let cap = NonZeroUsize::new(capacity).unwrap();
        CacheStore { inner: Arc::new(Mutex::new(LruCache::new(cap))) }
    }

    /// Relies on `std::sync::Arc::clone`: the new handle shares the same
    /// underlying table, created with the same capacity.
    #[verifier::external_body]
    pub fn clone_handle(&self) -> (r: CacheStore)
        ensures
            cache_capacity(r) == cache_capacity(*self),
    {
        CacheStore { inner: Arc::clone(&self.inner) }
    }

    /// Relies on `lru::LruCache::get`: it returns `None`, or a value that
    /// `put` stored under an equal key. Keys are compared structurally, so an
    /// equal key carries the same algorithm code and the same characters, and
    /// every store into this table goes through [`CacheStore::put`], whose
    /// precondition pins the value to the stem of its key: any value read
    /// back is therefore the stem of the key asked for. The mutex keeps a
    /// concurrent write from being seen half done. Nothing is promised about
    /// whether the key is present: other threads insert and evict at any time.
    #[verifier::external_body]
    pub(crate) fn get(&self, alg: u8, word: &str) -> (r: Option<String>)
        ensures
            r is Some ==> r->0@ == stem_of(alg as int, word@),
    {
        let mut guard = self.inner.lock().unwrap_or_else(|e| e.into_inner());
        guard.get(&(alg, word.to_string())).cloned()
    }

    /// Relies on `lru::LruCache::put`: it stores the pair, overwriting any
    /// entry with an equal key and evicting the least recently used entry
    /// when the table is full. Storing only a value equal to the stem of its
    /// key keeps re-insertion under a race idempotent and is what lets
    /// [`CacheStore::get`] promise the value of whatever it returns.
    #[verifier::external_body]
    pub(crate) fn put(&self, alg: u8, word: &str, value: String)
        requires
            value@ == stem_of(alg as int, word@),
    {
        let mut guard = self.inner.lock().unwrap_or_else(|e| e.into_inner());
        guard.put((alg, word.to_string()), value);
    }

    /// Relies on `lru::LruCache::len` and the fixed capacity given to
    /// `lru::LruCache::new`: the number of entries never exceeds the
    /// capacity, whatever was inserted.
    #[verifier::external_body]
    pub fn len(&self) -> (r: usize)
        ensures
            r <= cache_capacity(*self),
    {
        let guard = self.inner.lock().unwrap_or_else(|e| e.into_inner());
        guard.len()
    }
}

} // verus!
