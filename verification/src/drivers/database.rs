//! A driver that stores cache entries as rows of a table with columns
//! `(key primary, value, expiration nullable)`. Reads delegate expiration to
//! the backend by querying with the predicate "expiration IS NULL OR
//! expiration > now", and the driver evaluates the same predicate again on
//! the row that came back, so an expired row is invisible either way.
//!
//! The table lives behind a database connection, so this module holds the
//! verified half of each operation: the row to insert for a write (value
//! encoding, expiration arithmetic), the liveness predicate, and the reading
//! of a fetched row. The surrounding process issues the queries; a write is
//! delete-by-key followed by insert — two separate statements, a known,
//! documented gap: a crash or a concurrent reader between them can observe
//! the key as transiently absent.

use vstd::prelude::*;
use super::{entry_expiry, expiry_at};

verus! {

/// The JSON text that the row codec produces for a value; it depends on the
/// character sequence alone.
pub uninterp spec fn json_encoding_of(s: Seq<char>) -> Seq<char>;

/// The value that the row codec reads back from JSON text, or absence when
/// the text is malformed; it depends on the text alone.
pub uninterp spec fn json_decoding_of(text: Seq<char>) -> Option<Seq<char>>;

/// Relies on serde_json::to_string: the text depends on the value alone,
/// serde_json::from_str reads it back as that same value, and serializing a
/// string cannot fail.
#[verifier::external_body]
fn json_encode_value(value: &String) -> (r: Option<String>)
    ensures
        r is Some,
        r matches Some(t) ==> t@ == json_encoding_of(value@) && json_decoding_of(t@) == Some(
            value@,
        ),
{
    serde_json::to_string(value).ok()
}

/// Relies on serde_json::from_str: reading depends on the text alone, and
/// malformed text is rejected rather than misread.
#[verifier::external_body]
fn json_decode_value(text: &String) -> (r: Option<String>)
    ensures
        r matches Some(s) ==> json_decoding_of(text@) == Some(s@),
        r is None ==> json_decoding_of(text@) is None,
{
    serde_json::from_str(text.as_str()).ok()
}

/// One row of the cache table.
pub struct CacheEntry {
    pub key: String,
    pub value: String,
    pub expiration: Option<u64>,
}

/// A row is live at `now` when its expiration column is null or still
/// strictly in the future: the predicate every read queries with.
pub open spec fn row_live_at(expiration: Option<u64>, now: u64) -> bool {
    match expiration {
        Option::None => true,
        Option::Some(t) => now < t,
    }
}

/// Failures of the table driver: an error reported by the database, or a
/// value the codec could not encode or read back.
#[derive(Debug, PartialEq, Eq)]
pub enum Error {
    Database(String),
    Serialize,
}

/// A driver that stores cache entries in a database.
pub struct DatabaseDriver;

impl DatabaseDriver {
    /// Create a new instance of the driver; the connection itself is
    /// configured by the surrounding process.
    pub fn new(_config: ()) -> (r: Result<Self, Error>)
        ensures
            r is Ok,
    {
        Ok(DatabaseDriver)
    }

    /// The row-liveness predicate, executable: exactly the filter
    /// "expiration IS NULL OR expiration > now" that reads query with.
    pub fn entry_is_live(&self, entry: &CacheEntry, now: u64) -> (b: bool)
        ensures
            b == row_live_at(entry.expiration, now),
    {
        match entry.expiration {
            None => true,
            Some(t) => now < t,
        }
    }

    /// Read the row fetched for a key: absence, a dead row, a live row
    /// decoded, or a decode error distinct from absence.
    pub fn get(&self, row: Option<&CacheEntry>, now: u64) -> (r: Result<Option<String>, Error>)
        ensures
            match r {
                Ok(Some(v)) => row matches Some(e) && row_live_at(e.expiration, now)
                    && json_decoding_of(e.value@) == Some(v@),
                Ok(None) => row is None || (row matches Some(e) && !row_live_at(
                    e.expiration,
                    now,
                )),
                Err(err) => err == Error::Serialize && (row matches Some(e) && row_live_at(
                    e.expiration,
                    now,
                ) && json_decoding_of(e.value@) is None),
            },
    {
        match row {
            None => Ok(None),
            Some(entry) => {
                if !self.entry_is_live(entry, now) {
                    Ok(None)
                } else {
                    match json_decode_value(&entry.value) {
                        Some(v) => Ok(Some(v)),
                        None => Err(Error::Serialize),
                    }
                }
            },
        }
    }

    /// Interpret the count of live rows for a key: present exactly when it
    /// is not zero.
    pub fn has(&self, count: u64) -> (b: bool)
        ensures
            b == (count != 0),
    {
        count != 0
    }

    /// Build the row that a write inserts: the value as JSON text and the
    /// absolute expiration instant, null when storing forever.
    pub fn make_entry(&self, key: &str, value: &String, duration: Option<u64>, now: u64) -> (r:
        Result<CacheEntry, Error>)
        ensures
            r is Ok,
            match r {
                Ok(e) => e.key@ == key@ && e.value@ == json_encoding_of(value@)
                    && json_decoding_of(e.value@) == Some(value@) && e.expiration == entry_expiry(
                    duration,
                    now,
                ),
                Err(err) => err == Error::Serialize,
            },
    {
        let text = match json_encode_value(value) {
            Some(t) => t,
            None => {
                return Err(Error::Serialize);
            },
        };
        let expiration = match duration {
            Some(d) => Some(now.saturating_add(d)),
            None => None,
        };
        Ok(CacheEntry { key: key.to_owned(), value: text, expiration })
    }
}

/// Law: a row written with duration `d` at `now` is live at every instant
/// before the expiration instant and dead from it on; a row written with no
/// duration is live at every instant.
pub proof fn lemma_row_liveness(d: u64, now: u64, t: u64)
    ensures
        row_live_at(entry_expiry(Some(d), now), t) <==> t < expiry_at(now, d),
        row_live_at(entry_expiry(None, now), t),
{
}

} // verus!
