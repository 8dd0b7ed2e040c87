//! The store as process-wide shared state: one `MovieStore` behind a
//! reader/writer lock, callable concurrently. Any number of fetches hold the
//! lock in shared mode at once; an upsert holds it exclusively for the one
//! map mutation, so no caller can observe a record mid-write. The lock is
//! held only for the duration of the map read or write, never across any
//! outside boundary.
//!
//! There is no failed-lock case: the store's operations are proved free of
//! panics, so no acquisition can find the lock abandoned mid-write, every
//! operation runs to completion, and the store stays usable for the whole
//! process lifetime.

use vstd::prelude::*;
use vstd::rwlock::RwLock;
use vstd::rwlock::RwLockPredicate;

use crate::store::Movie;
use crate::store::MovieStore;
use crate::store::StoreError;

verus! {

/// The invariant the lock protects: between operations the store is well
/// formed, so every identifier denotes at most one record.
pub struct WfStore;

impl RwLockPredicate<MovieStore> for WfStore {
    open spec fn inv(self, s: MovieStore) -> bool {
        s.wf()
    }
}

/// A movie store shared by concurrent callers. Each handle may be held by any
/// number of tasks; the lock arbitrates their access.
pub struct SharedStore {
    lock: RwLock<MovieStore, WfStore>,
}

impl SharedStore {
    /// A fresh shared store, holding no records at all.
    pub fn new() -> SharedStore {
        SharedStore { lock: RwLock::new(MovieStore::new(), Ghost(WfStore)) }
    }

    /// Looks up `id` under the lock in shared mode. Returns a copy of the
    /// record the observed store state files under `id`, by the contract of
    /// `MovieStore::fetch`, or `NotFound` exactly when that state holds none.
    pub fn fetch(&self, id: &String) -> (r: Result<Movie, StoreError>)
        ensures
            r matches Err(e) ==> e == StoreError::NotFound,
    {
        let handle = self.lock.acquire_read();
        let r = handle.borrow().fetch(id);
        handle.release_read();
        r
    }

    /// Files `movie` under `movie.id` under the lock in exclusive mode,
    /// replacing whatever record that identifier held in the observed store
    /// state, by the contract of `MovieStore::upsert`; the new record is at
    /// once visible to every later operation. Returns a copy of the stored
    /// record as confirmation.
    pub fn upsert(&self, movie: Movie) -> (r: Movie)
        ensures
            r@ == movie@,
    {
        let (mut store, handle) = self.lock.acquire_write();
        let r = store.upsert(movie);
        handle.release_write(store);
        r
    }
}

} // verus!
