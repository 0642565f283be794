//! A driver that stores values in memory, owned exclusively by the driver
//! instance. Reads compare the stored expiration against the caller's clock
//! without removing expired entries (checked-on-read): removal would need
//! exclusive access on a logically read-only path, so stale entries persist
//! until overwritten or flushed.

use vstd::prelude::*;
use super::{decode_value, encode_value, Driver, Entry};

verus! {

struct MemoryEntry {
    key: String,
    data: Vec<u8>,
    expires_at: Option<u64>,
}

impl MemoryEntry {
    spec fn entry(&self) -> Entry {
        Entry { data: self.data@, expires_at: self.expires_at }
    }
}

/// The logical contents of a sequence of entries: later occurrences of a key
/// shadow earlier ones (the driver keeps at most one per key).
spec fn seq_model(s: Seq<MemoryEntry>) -> Map<Seq<char>, Entry>
    decreases s.len(),
{
    if s.len() == 0 {
        Map::empty()
    } else {
        seq_model(s.drop_last()).insert(s.last().key@, s.last().entry())
    }
}

spec fn keys_unique(s: Seq<MemoryEntry>) -> bool {
    forall|i: int, j: int| 0 <= i < j < s.len() ==> s[i].key@ != s[j].key@
}

proof fn lemma_model_absent(s: Seq<MemoryEntry>, k: Seq<char>)
    requires
        forall|i: int| 0 <= i < s.len() ==> s[i].key@ != k,
    ensures
        !seq_model(s).dom().contains(k),
    decreases s.len(),
{
    if s.len() > 0 {
        lemma_model_absent(s.drop_last(), k);
    }
}

proof fn lemma_model_lookup(s: Seq<MemoryEntry>, i: int)
    requires
        keys_unique(s),
        0 <= i < s.len(),
    ensures
        seq_model(s).dom().contains(s[i].key@),
        seq_model(s)[s[i].key@] == s[i].entry(),
    decreases s.len(),
{
    if i == s.len() - 1 {
    } else {
        lemma_model_lookup(s.drop_last(), i);
    }
}

proof fn lemma_model_push(s: Seq<MemoryEntry>, e: MemoryEntry)
    ensures
        seq_model(s.push(e)) == seq_model(s).insert(e.key@, e.entry()),
{
    assert(s.push(e).drop_last() =~= s);
}

proof fn lemma_model_remove_at(s: Seq<MemoryEntry>, i: int)
    requires
        keys_unique(s),
        0 <= i < s.len(),
    ensures
        seq_model(s.remove(i)) =~= seq_model(s).remove(s[i].key@),
        keys_unique(s.remove(i)),
    decreases s.len(),
{
    let k = s[i].key@;
    if i == s.len() - 1 {
        assert(s.remove(i) =~= s.drop_last());
        lemma_model_absent(s.drop_last(), k);
        assert(seq_model(s.drop_last()).insert(k, s[i].entry()).remove(k) =~= seq_model(
            s.drop_last(),
        ));
    } else {
        lemma_model_remove_at(s.drop_last(), i);
        assert(s.remove(i).drop_last() =~= s.drop_last().remove(i));
        assert(s.remove(i).last() == s.last());
        let last = s.last();
        assert(k != last.key@);
        assert(seq_model(s.remove(i)) == seq_model(s.drop_last()).remove(k).insert(
            last.key@,
            last.entry(),
        ));
        assert(seq_model(s.drop_last()).remove(k).insert(last.key@, last.entry()) =~= seq_model(
            s.drop_last(),
        ).insert(last.key@, last.entry()).remove(k));
    }
}

fn find_index(entries: &Vec<MemoryEntry>, key: &String) -> (r: Option<usize>)
    ensures
        r matches Some(i) ==> i < entries@.len() && entries@[i as int].key@ == key@,
        r is None ==> forall|i: int| 0 <= i < entries@.len() ==> entries@[i].key@ != key@,
{
    let mut i: usize = 0;
    while i < entries.len()
        invariant
            i <= entries@.len(),
            forall|j: int| 0 <= j < i ==> entries@[j].key@ != key@,
        decreases entries@.len() - i,
    {
        if entries[i].key == *key {
            return Some(i);
        }
        i = i + 1;
    }
    None
}

/// A driver that stores values in memory.
pub struct MemoryDriver {
    entries: Vec<MemoryEntry>,
}

impl MemoryDriver {
    #[verifier::type_invariant]
    spec fn wf(&self) -> bool {
        keys_unique(self.entries@)
    }
}

/// Failures of the in-memory driver: the stored payload could not be read
/// back, or a value could not be encoded for storage.
#[derive(Debug, PartialEq, Eq)]
pub enum Error {
    DeserializationError,
}

impl Driver for MemoryDriver {
    type Config = ();

    type Error = Error;

    closed spec fn model(&self) -> Map<Seq<char>, Entry> {
        seq_model(self.entries@)
    }

    open spec fn persistent() -> bool {
        true
    }

    open spec fn supports_flush() -> bool {
        true
    }

    open spec fn infallible() -> bool {
        true
    }

    fn new(_config: ()) -> (r: Result<Self, Error>)
        ensures
            r is Ok,
    {
        Ok(MemoryDriver { entries: Vec::new() })
    }

    fn get(&self, key: &str, now: u64) -> (r: Result<Option<String>, Error>) {
        proof {
            use_type_invariant(&*self);
        }
        let k = key.to_owned();
        match find_index(&self.entries, &k) {
            None => {
                proof {
                    lemma_model_absent(self.entries@, k@);
                }
                Ok(None)
            },
            Some(i) => {
                proof {
                    lemma_model_lookup(self.entries@, i as int);
                }
                let live = match self.entries[i].expires_at {
                    None => true,
                    Some(t) => now < t,
                };
                if !live {
                    Ok(None)
                } else {
                    match decode_value(&self.entries[i].data) {
                        Some(v) => Ok(Some(v)),
                        None => Err(Error::DeserializationError),
                    }
                }
            },
        }
    }

    fn has(&self, key: &str, now: u64) -> (r: Result<bool, Error>)
        ensures
            r is Ok,
    {
        proof {
            use_type_invariant(&*self);
        }
        let k = key.to_owned();
        match find_index(&self.entries, &k) {
            None => {
                proof {
                    lemma_model_absent(self.entries@, k@);
                }
                Ok(false)
            },
            Some(i) => {
                proof {
                    lemma_model_lookup(self.entries@, i as int);
                }
                match self.entries[i].expires_at {
                    None => Ok(true),
                    Some(t) => Ok(now < t),
                }
            },
        }
    }

    fn put(&mut self, key: &str, value: &String, expiry: Option<u64>, now: u64) -> (r: Result<
        (),
        Error,
    >)
        ensures
            r is Ok,
    {
        proof {
            use_type_invariant(&*self);
        }
        let data = match encode_value(value) {
            Some(d) => d,
            None => {
                return Err(Error::DeserializationError);
            },
        };
        let expires_at = match expiry {
            Some(d) => Some(now.saturating_add(d)),
            None => None,
        };
        let k = key.to_owned();
        let mut v: Vec<MemoryEntry> = Vec::new();
        core::mem::swap(&mut v, &mut self.entries);
        let ghost v0 = v@;
        match find_index(&v, &k) {
            Some(i) => {
                v.remove(i);
                proof {
                    lemma_model_remove_at(v0, i as int);
                }
            },
            None => {
                proof {
                    assert(seq_model(v0).remove(k@) =~= seq_model(v0)) by {
                        lemma_model_absent(v0, k@);
                    }
                }
            },
        }
        let ghost v1 = v@;
        let e = MemoryEntry { key: k, data, expires_at };
        proof {
            lemma_model_push(v1, e);
            assert(seq_model(v0).remove(e.key@).insert(e.key@, e.entry()) =~= seq_model(
                v0,
            ).insert(e.key@, e.entry()));
        }
        v.push(e);
        self.entries = v;
        Ok(())
    }

    fn forget(&mut self, key: &str) -> (r: Result<(), Error>)
        ensures
            r is Ok,
    {
        proof {
            use_type_invariant(&*self);
        }
        let k = key.to_owned();
        let mut v: Vec<MemoryEntry> = Vec::new();
        core::mem::swap(&mut v, &mut self.entries);
        let ghost v0 = v@;
        match find_index(&v, &k) {
            Some(i) => {
                v.remove(i);
                proof {
                    lemma_model_remove_at(v0, i as int);
                }
            },
            None => {
                proof {
                    assert(seq_model(v0).remove(k@) =~= seq_model(v0)) by {
                        lemma_model_absent(v0, k@);
                    }
                }
            },
        }
        self.entries = v;
        Ok(())
    }

    fn flush(&mut self) -> (r: Result<(), Error>)
        ensures
            r is Ok,
    {
        self.entries = Vec::new();
        Ok(())
    }
}

} // verus!
