//! The driver abstraction: one uniform, expiration-aware key-value contract,
//! implemented once per storage back end.

use vstd::prelude::*;

pub mod memory;
pub mod null;
pub mod database;
pub mod dynamodb;
pub mod redis;

pub use database::DatabaseDriver;
pub use dynamodb::DynamoDBDriver;
pub use memory::MemoryDriver;
pub use null::NullDriver;
pub use redis::RedisDriver;

verus! {

/// One stored entry: an opaque byte payload and an optional absolute
/// expiration instant (seconds since an arbitrary epoch). An entry whose
/// expiration has passed must be treated as absent by every read path,
/// whether or not physical storage has reclaimed it.
pub struct Entry {
    pub data: Seq<u8>,
    pub expires_at: Option<u64>,
}

/// An entry is live at `now` when it has no expiration, or its expiration
/// instant is still strictly in the future.
pub open spec fn entry_live_at(e: Entry, now: u64) -> bool {
    match e.expires_at {
        Option::None => true,
        Option::Some(t) => now < t,
    }
}

/// The payload a read of `key` observes at `now`: the stored bytes when a
/// live entry exists, absence otherwise.
pub open spec fn live_data(m: Map<Seq<char>, Entry>, key: Seq<char>, now: u64) -> Option<Seq<u8>> {
    if m.dom().contains(key) && entry_live_at(m[key], now) {
        Option::Some(m[key].data)
    } else {
        Option::None
    }
}

/// Whether a read of `key` at `now` observes a stored payload.
pub open spec fn spec_has(m: Map<Seq<char>, Entry>, key: Seq<char>, now: u64) -> bool {
    live_data(m, key, now) is Some
}

/// The absolute expiration instant for a write at `now` with duration `dur`,
/// saturating at the largest representable instant.
pub open spec fn expiry_at(now: u64, dur: u64) -> u64 {
    if now + dur <= u64::MAX {
        (now + dur) as u64
    } else {
        u64::MAX
    }
}

/// The stored expiration for a write at `now`: none when storing forever,
/// the saturated absolute instant when a duration is given.
pub open spec fn entry_expiry(expiry: Option<u64>, now: u64) -> Option<u64> {
    match expiry {
        Option::None => Option::None,
        Option::Some(d) => Option::Some(expiry_at(now, d)),
    }
}

/// The byte payload that the value codec produces for a value; it depends on
/// the character sequence alone.
pub uninterp spec fn encoding_of(s: Seq<char>) -> Seq<u8>;

/// The value that the codec reads back from a byte payload, or absence when
/// the payload is malformed; it depends on the bytes alone.
pub uninterp spec fn decoding_of(data: Seq<u8>) -> Option<Seq<char>>;

/// Relies on bitcode::serialize: the payload depends on the value alone,
/// bitcode::deserialize reads it back as that same value, and serializing a
/// string cannot fail.
#[verifier::external_body]
pub(crate) fn encode_value(value: &String) -> (r: Option<Vec<u8>>)
    ensures
        r is Some,
        r matches Some(b) ==> b@ == encoding_of(value@) && decoding_of(b@) == Some(value@),
{
    bitcode::serialize(value).ok()
}

/// Relies on bitcode::deserialize: reading a payload depends on the bytes
/// alone, and a malformed payload is rejected rather than misread.
#[verifier::external_body]
pub(crate) fn decode_value(data: &Vec<u8>) -> (r: Option<String>)
    ensures
        r matches Some(s) ==> decoding_of(data@) == Some(s@),
        r is None ==> decoding_of(data@) is None,
{
    bitcode::deserialize(data.as_slice()).ok()
}

/// Law: a key is reported present exactly when a read of it would observe a
/// stored payload, at every instant — both are true precisely of a key that
/// is stored and unexpired, so presence and reads agree on expiration.
pub proof fn lemma_has_iff_get(m: Map<Seq<char>, Entry>, key: Seq<char>, now: u64)
    ensures
        spec_has(m, key, now) <==> live_data(m, key, now) is Some,
        spec_has(m, key, now) <==> (m.dom().contains(key) && entry_live_at(m[key], now)),
{
}

/// Law: after a write of payload `d` with a positive duration `dur` at time
/// `now`, a read of the key observes `d` at every instant before the
/// expiration instant and absence at every instant from it on, whatever was
/// stored before.
pub proof fn lemma_put_then_get(
    m: Map<Seq<char>, Entry>,
    key: Seq<char>,
    d: Seq<u8>,
    now: u64,
    dur: u64,
    t: u64,
)
    requires
        dur > 0,
    ensures
        ({
            let m2 = m.insert(key, Entry { data: d, expires_at: Some(expiry_at(now, dur)) });
            &&& t < expiry_at(now, dur) ==> live_data(m2, key, t) == Some(d)
            &&& t >= expiry_at(now, dur) ==> live_data(m2, key, t) is None
        }),
{
}

/// Law: a write with no expiration is observed at every later instant, until
/// it is overwritten or removed.
pub proof fn lemma_put_forever_then_get(m: Map<Seq<char>, Entry>, key: Seq<char>, d: Seq<u8>, t: u64)
    ensures
        live_data(m.insert(key, Entry { data: d, expires_at: None }), key, t) == Some(d),
{
}

/// Law: removing a key makes an immediate read of it observe absence, for
/// any prior state and at every instant.
pub proof fn lemma_forget_then_get(m: Map<Seq<char>, Entry>, key: Seq<char>, t: u64)
    ensures
        live_data(m.remove(key), key, t) is None,
{
}

/// Law: clearing everything makes a read of any key observe absence at every
/// instant.
pub proof fn lemma_flush_then_get(key: Seq<char>, t: u64)
    ensures
        live_data(Map::<Seq<char>, Entry>::empty(), key, t) is None,
{
}

/// Cache driver: the uniform contract every back end satisfies.
///
/// `model()` is the driver's logical contents. `persistent()` says whether
/// writes take effect at all (the no-op back end accepts them and drops
/// them); `supports_flush()` says whether the back end has a bulk-clear
/// primitive. Reads take the current time as a plain value so that every
/// back end enforces the same expiration rule, however its storage works.
///
/// The error arms below describe in-process back ends exactly: the one way
/// a read can fail is a stored payload the codec cannot read back, and a
/// failed write changes nothing. A back end whose operations can also fail
/// for reasons outside the data — a connection, a remote service — does not
/// implement this trait; it stands behind its own module, which verifies
/// the computing half of each operation and leaves the exchange to the
/// surrounding process.
pub trait Driver: Sized {
    type Config;

    type Error;

    /// The driver's logical contents: one live-or-expired entry per key.
    spec fn model(&self) -> Map<Seq<char>, Entry>;

    /// Whether writes through this driver are stored at all.
    spec fn persistent() -> bool;

    /// Whether this back end has a bulk-clear primitive.
    spec fn supports_flush() -> bool;

    /// Whether this driver is free of failures from outside the data
    /// itself: construction, presence checks, writes, removals and clearing
    /// succeed, and a read can fail only on a stored payload the codec
    /// cannot read back. True of the in-process back ends.
    spec fn infallible() -> bool;

    /// Create a new instance of the driver; a fresh driver's logical
    /// contents are empty.
    fn new(config: Self::Config) -> (r: Result<Self, Self::Error>)
        ensures
            Self::infallible() ==> r is Ok,
            r matches Ok(d) ==> d.model() == Map::<Seq<char>, Entry>::empty(),
    ;

    /// Get a value from the cache; an expired entry is reported absent.
    /// A stored payload that the codec cannot read back is an error,
    /// distinct from absence.
    fn get(&self, key: &str, now: u64) -> (r: Result<Option<String>, Self::Error>)
        ensures
            match r {
                Ok(Some(v)) => live_data(self.model(), key@, now) matches Some(d)
                    && decoding_of(d) == Some(v@),
                Ok(None) => live_data(self.model(), key@, now) is None,
                Err(_) => live_data(self.model(), key@, now) matches Some(d)
                    && decoding_of(d) is None,
            },
    ;

    /// Check if a value exists in the cache and is unexpired.
    fn has(&self, key: &str, now: u64) -> (r: Result<bool, Self::Error>)
        ensures
            Self::infallible() ==> r is Ok,
            r matches Ok(b) ==> b == spec_has(self.model(), key@, now),
    ;

    /// Put a value into the cache, replacing any prior entry for the key;
    /// `expiry` is a duration in seconds, absent to store forever.
    fn put(&mut self, key: &str, value: &String, expiry: Option<u64>, now: u64) -> (r: Result<
        (),
        Self::Error,
    >)
        ensures
            Self::infallible() ==> r is Ok,
            r is Ok && Self::persistent() ==> final(self).model() == old(self).model().insert(
                key@,
                Entry { data: encoding_of(value@), expires_at: entry_expiry(expiry, now) },
            ) && decoding_of(encoding_of(value@)) == Some(value@),
            r is Ok && !Self::persistent() ==> final(self).model() == old(self).model(),
            r is Err ==> final(self).model() == old(self).model(),
    ;

    /// Remove a value from the cache; removing an absent key succeeds.
    fn forget(&mut self, key: &str) -> (r: Result<(), Self::Error>)
        ensures
            Self::infallible() ==> r is Ok,
            r is Ok ==> final(self).model() == old(self).model().remove(key@),
            r is Err ==> final(self).model() == old(self).model(),
    ;

    /// Remove all values from the cache, or fail with a distinguished error
    /// on a back end with no bulk-clear primitive, leaving storage unchanged.
    fn flush(&mut self) -> (r: Result<(), Self::Error>)
        ensures
            Self::infallible() && Self::supports_flush() ==> r is Ok,
            Self::supports_flush() && r is Ok ==> final(self).model() == Map::<
                Seq<char>,
                Entry,
            >::empty(),
            !Self::supports_flush() ==> r is Err,
            r is Err ==> final(self).model() == old(self).model(),
    ;
}

} // verus!
