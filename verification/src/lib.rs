//! An expressive interface for interacting with a cache: one uniform,
//! expiration-aware key-value vocabulary over interchangeable storage back
//! ends.
//!
//! The facade holds exactly one driver and carries no storage state of its
//! own; every composed operation is built from the driver's primitives.
//! Reads and duration-based writes take the current time (seconds since an
//! arbitrary epoch) as a plain value, so the same expiration rule is
//! enforced over every back end.
//!
//! The composed operations (`remember`, `add`, `pull`) are check-then-act
//! sequences of primitives, not atomic: with concurrent callers the classic
//! races apply, and the contracts below describe a single caller's view.

use vstd::prelude::*;

pub mod drivers;

use drivers::{
    decoding_of, encoding_of, expiry_at, live_data, spec_has, Driver, Entry,
};

verus! {

/// A cache: one driver behind the full user-facing vocabulary.
pub struct Cache<D: Driver> {
    driver: D,
}

impl<D: Driver> Cache<D> {
    /// The logical contents of the underlying driver.
    pub closed spec fn model(&self) -> Map<Seq<char>, Entry> {
        self.driver.model()
    }

    /// Create a new instance of the cache; a fresh cache reads empty.
    pub fn new(config: D::Config) -> (r: Result<Self, D::Error>)
        ensures
            D::infallible() ==> r is Ok,
            r matches Ok(c) ==> c.model() == Map::<Seq<char>, Entry>::empty(),
    {
        match D::new(config) {
            Ok(driver) => Ok(Cache { driver }),
            Err(e) => Err(e),
        }
    }

    /// Retrieve an item from the cache; an expired entry is reported absent,
    /// and a stored payload the codec cannot read back is an error, distinct
    /// from absence.
    pub fn get(&self, key: &str, now: u64) -> (r: Result<Option<String>, D::Error>)
        ensures
            match r {
                Ok(Some(v)) => live_data(self.model(), key@, now) matches Some(d)
                    && decoding_of(d) == Some(v@),
                Ok(None) => live_data(self.model(), key@, now) is None,
                Err(_) => live_data(self.model(), key@, now) matches Some(d) && decoding_of(
                    d,
                ) is None,
            },
    {
        self.driver.get(key, now)
    }

    /// Check if an item exists in the cache and is unexpired.
    pub fn has(&self, key: &str, now: u64) -> (r: Result<bool, D::Error>)
        ensures
            D::infallible() ==> r is Ok,
            r matches Ok(b) ==> b == spec_has(self.model(), key@, now),
    {
        self.driver.has(key, now)
    }

    /// Retrieve an item from the cache, or store `value` for `duration`
    /// seconds and return it if it doesn't exist yet. Best-effort: the read
    /// and the write are two separate operations.
    pub fn remember(&mut self, key: &str, duration: u64, value: String, now: u64) -> (r: Result<
        String,
        D::Error,
    >)
        ensures
            (live_data(old(self).model(), key@, now) matches Some(d) && decoding_of(d) is Some)
                ==> r is Ok,
            (live_data(old(self).model(), key@, now) is None && D::infallible()) ==> r is Ok,
            r matches Ok(v) ==> match live_data(old(self).model(), key@, now) {
                Some(d) => decoding_of(d) == Some(v@) && final(self).model() == old(self).model(),
                None => v@ == value@ && (D::persistent() ==> final(self).model() == old(self).model().insert(
                    key@,
                    Entry {
                        data: encoding_of(value@),
                        expires_at: Some(expiry_at(now, duration)),
                    },
                )) && (!D::persistent() ==> final(self).model() == old(self).model()),
            },
            r is Err ==> final(self).model() == old(self).model(),
    {
        match self.driver.get(key, now) {
            Err(e) => Err(e),
            Ok(Some(v)) => Ok(v),
            Ok(None) => match self.put(key, &value, duration, now) {
                Ok(()) => Ok(value),
                Err(e) => Err(e),
            },
        }
    }

    /// Retrieve an item from the cache, or store `value` forever and return
    /// it if it doesn't exist yet. Best-effort, as `remember` is.
    pub fn remember_forever(&mut self, key: &str, value: String, now: u64) -> (r: Result<
        String,
        D::Error,
    >)
        ensures
            (live_data(old(self).model(), key@, now) matches Some(d) && decoding_of(d) is Some)
                ==> r is Ok,
            (live_data(old(self).model(), key@, now) is None && D::infallible()) ==> r is Ok,
            r matches Ok(v) ==> match live_data(old(self).model(), key@, now) {
                Some(d) => decoding_of(d) == Some(v@) && final(self).model() == old(self).model(),
                None => v@ == value@ && (D::persistent() ==> final(self).model() == old(self).model().insert(key@, Entry { data: encoding_of(value@), expires_at: None }))
                    && (!D::persistent() ==> final(self).model() == old(self).model()),
            },
            r is Err ==> final(self).model() == old(self).model(),
    {
        match self.driver.get(key, now) {
            Err(e) => Err(e),
            Ok(Some(v)) => Ok(v),
            Ok(None) => match self.forever(key, &value) {
                Ok(()) => Ok(value),
                Err(e) => Err(e),
            },
        }
    }

    /// Remove an item from the cache and return it; when no live value is
    /// found, nothing is removed. Best-effort: the read and the removal are
    /// two separate operations.
    pub fn pull(&mut self, key: &str, now: u64) -> (r: Result<Option<String>, D::Error>)
        ensures
            live_data(old(self).model(), key@, now) is None ==> (r matches Ok(o) && o is None),
            (live_data(old(self).model(), key@, now) matches Some(d) && decoding_of(d) is Some
                && D::infallible()) ==> r is Ok,
            r matches Ok(Some(v)) ==> (live_data(old(self).model(), key@, now) matches Some(d)
                && decoding_of(d) == Some(v@)) && final(self).model() == old(self).model().remove(
                key@,
            ),
            r matches Ok(None) ==> live_data(old(self).model(), key@, now) is None && final(self).model() == old(self).model(),
            r is Err ==> final(self).model() == old(self).model(),
    {
        let item = match self.get(key, now) {
            Err(e) => {
                return Err(e);
            },
            Ok(None) => {
                return Ok(None);
            },
            Ok(Some(v)) => v,
        };
        match self.forget(key) {
            Ok(()) => Ok(Some(item)),
            Err(e) => Err(e),
        }
    }

    /// Store an item in the cache for `expiry` seconds from `now`.
    pub fn put(&mut self, key: &str, value: &String, expiry: u64, now: u64) -> (r: Result<
        (),
        D::Error,
    >)
        ensures
            D::infallible() ==> r is Ok,
            r is Ok && D::persistent() ==> final(self).model() == old(self).model().insert(
                key@,
                Entry { data: encoding_of(value@), expires_at: Some(expiry_at(now, expiry)) },
            ) && decoding_of(encoding_of(value@)) == Some(value@),
            r is Ok && !D::persistent() ==> final(self).model() == old(self).model(),
            r is Err ==> final(self).model() == old(self).model(),
    {
        self.driver.put(key, value, Some(expiry), now)
    }

    /// Store an item in the cache if it doesn't exist yet; reports whether
    /// the write happened. Best-effort: the existence check and the write
    /// are two separate operations.
    pub fn add(&mut self, key: &str, value: String, expiry: u64, now: u64) -> (r: Result<
        bool,
        D::Error,
    >)
        ensures
            D::infallible() ==> r is Ok,
            r matches Ok(true) ==> !spec_has(old(self).model(), key@, now) && (D::persistent()
                ==> final(self).model() == old(self).model().insert(
                key@,
                Entry { data: encoding_of(value@), expires_at: Some(expiry_at(now, expiry)) },
            )) && (!D::persistent() ==> final(self).model() == old(self).model()),
            r matches Ok(false) ==> spec_has(old(self).model(), key@, now) && final(self).model()
                == old(self).model(),
            r is Err ==> final(self).model() == old(self).model(),
    {
        match self.has(key, now) {
            Err(e) => Err(e),
            Ok(true) => Ok(false),
            Ok(false) => match self.put(key, &value, expiry, now) {
                Ok(()) => Ok(true),
                Err(e) => Err(e),
            },
        }
    }

    /// Store an item in the cache indefinitely.
    pub fn forever(&mut self, key: &str, value: &String) -> (r: Result<(), D::Error>)
        ensures
            D::infallible() ==> r is Ok,
            r is Ok && D::persistent() ==> final(self).model() == old(self).model().insert(
                key@,
                Entry { data: encoding_of(value@), expires_at: None },
            ) && decoding_of(encoding_of(value@)) == Some(value@),
            r is Ok && !D::persistent() ==> final(self).model() == old(self).model(),
            r is Err ==> final(self).model() == old(self).model(),
    {
        self.driver.put(key, value, None, 0)
    }

    /// Remove an item from the cache; removing an absent key succeeds.
    pub fn forget(&mut self, key: &str) -> (r: Result<(), D::Error>)
        ensures
            D::infallible() ==> r is Ok,
            r is Ok ==> final(self).model() == old(self).model().remove(key@),
            r is Err ==> final(self).model() == old(self).model(),
    {
        self.driver.forget(key)
    }

    /// Remove all items from the cache, or fail with the back end's
    /// distinguished error, leaving storage unchanged, when it has no
    /// bulk-clear primitive.
    pub fn flush(&mut self) -> (r: Result<(), D::Error>)
        ensures
            D::infallible() && D::supports_flush() ==> r is Ok,
            D::supports_flush() && r is Ok ==> final(self).model() == Map::<
                Seq<char>,
                Entry,
            >::empty(),
            !D::supports_flush() ==> r is Err,
            r is Err ==> final(self).model() == old(self).model(),
    {
        self.driver.flush()
    }
}

} // verus!
