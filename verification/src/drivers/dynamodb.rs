//! A driver that uses a managed key-value store whose items are named,
//! typed attributes (string, binary, number, null) keyed by a single
//! partition key. A write stores the payload and an expiration attribute;
//! the back end does not proactively hide items past that attribute, so
//! reads re-check the stored expiration against the current time and treat
//! an expired item as absent without deleting it. The back end has no
//! bulk-clear primitive: `flush` fails with a distinguished error rather
//! than attempting a scan-and-delete workaround.
//!
//! The store is reached over the network, so this module holds the verified
//! half of each operation: building the item a write sends and reading,
//! validating and expiration-checking the item a fetch returned. The
//! surrounding process performs the actual calls and hands items across as
//! plain values.

use vstd::prelude::*;
use super::{decode_value, decoding_of, encode_value, encoding_of, expiry_at};
use vstd::string::StringExecFns;

verus! {

/// One named, typed attribute value of a stored item.
pub enum Attr {
    S(String),
    B(Vec<u8>),
    N(Vec<u8>),
    Null,
}

/// The first attribute with the given name, if any.
pub open spec fn attr_lookup_spec(attrs: Seq<(String, Attr)>, name: Seq<char>) -> Option<Attr>
    decreases attrs.len(),
{
    if attrs.len() == 0 {
        Option::None
    } else if attrs[0].0@ == name {
        Option::Some(attrs[0].1)
    } else {
        attr_lookup_spec(attrs.subrange(1, attrs.len() as int), name)
    }
}

/// Find the first attribute with the given name.
fn attr_find(attrs: &Vec<(String, Attr)>, name: &String) -> (r: Option<usize>)
    ensures
        r matches Some(i) ==> i < attrs@.len() && attrs@[i as int].0@ == name@ && attr_lookup_spec(
            attrs@,
            name@,
        ) == Some(attrs@[i as int].1),
        r is None ==> attr_lookup_spec(attrs@, name@) is None,
{
    let len = attrs.len();
    proof {
        assert(attrs@.subrange(0, len as int) =~= attrs@);
    }
    let mut i: usize = 0;
    while i < len
        invariant
            len == attrs@.len(),
            i <= len,
            attr_lookup_spec(attrs@, name@) == attr_lookup_spec(
                attrs@.subrange(i as int, len as int),
                name@,
            ),
            forall|j: int| 0 <= j < i ==> attrs@[j].0@ != name@,
        decreases len - i,
    {
        let ghost rest = attrs@.subrange(i as int, len as int);
        if attrs[i].0 == *name {
            proof {
                assert(rest[0] == attrs@[i as int]);
            }
            return Some(i);
        }
        proof {
            assert(rest[0] == attrs@[i as int]);
            assert(rest.subrange(1, rest.len() as int) =~= attrs@.subrange(
                i + 1 as int,
                len as int,
            ));
        }
        i = i + 1;
    }
    None
}

/// Whether every byte is an ASCII decimal digit.
pub open spec fn is_digit_seq(s: Seq<u8>) -> bool {
    forall|i: int| 0 <= i < s.len() ==> 48 <= #[trigger] s[i] <= 57
}

/// The number that a sequence of ASCII decimal digits denotes.
pub open spec fn digit_seq_val(s: Seq<u8>) -> nat
    decreases s.len(),
{
    if s.len() == 0 {
        0
    } else {
        (digit_seq_val(s.drop_last()) * 10 + (s.last() - 48)) as nat
    }
}

proof fn lemma_digit_val_prefix(s: Seq<u8>, i: int)
    requires
        0 <= i <= s.len(),
        is_digit_seq(s),
    ensures
        digit_seq_val(s.take(i)) <= digit_seq_val(s),
    decreases s.len() - i,
{
    if i == s.len() {
        assert(s.take(i) =~= s);
    } else {
        assert(s.take(i + 1).drop_last() =~= s.take(i));
        assert(s.take(i + 1).last() == s[i]);
        lemma_digit_val_prefix(s, i + 1);
    }
}

/// Read a number attribute's digits as a value, as the store transmits
/// numbers: only a non-empty, all-digit text that fits the result type is
/// accepted.
pub fn parse_u64(digits: &Vec<u8>) -> (r: Option<u64>)
    ensures
        r matches Some(n) ==> digits@.len() > 0 && is_digit_seq(digits@) && digit_seq_val(digits@)
            == n,
        r is None ==> digits@.len() == 0 || !is_digit_seq(digits@) || digit_seq_val(digits@)
            > u64::MAX,
{
    let len = digits.len();
    if len == 0 {
        return None;
    }
    let mut acc: u64 = 0;
    let mut i: usize = 0;
    while i < len
        invariant
            len == digits@.len(),
            i <= len,
            is_digit_seq(digits@.take(i as int)),
            acc == digit_seq_val(digits@.take(i as int)),
        decreases len - i,
    {
        let d = digits[i];
        proof {
            assert(digits@.take(i + 1 as int).drop_last() =~= digits@.take(i as int));
            assert(digits@.take(i + 1 as int).last() == digits@[i as int]);
        }
        if d < 48 || d > 57 {
            return None;
        }
        let step = match acc.checked_mul(10) {
            Some(x) => x.checked_add((d - 48) as u64),
            None => None,
        };
        match step {
            Some(x) => {
                acc = x;
            },
            None => {
                proof {
                    assert(digit_seq_val(digits@.take(i + 1 as int)) > u64::MAX);
                    if is_digit_seq(digits@) {
                        lemma_digit_val_prefix(digits@, i + 1 as int);
                    }
                }
                return None;
            },
        }
        i = i + 1;
    }
    proof {
        assert(digits@.take(len as int) =~= digits@);
    }
    Some(acc)
}

/// Render a value as the digit text of a number attribute.
pub fn u64_to_digits(n: u64) -> (r: Vec<u8>)
    ensures
        r@.len() > 0,
        is_digit_seq(r@),
        digit_seq_val(r@) == n,
    decreases n,
{
    proof {
        vstd::arithmetic::div_mod::lemma_fundamental_div_mod(n as int, 10);
    }
    if n < 10 {
        let mut v: Vec<u8> = Vec::new();
        v.push((n as u8) + 48);
        proof {
            assert(v@.drop_last() =~= Seq::<u8>::empty());
            assert(digit_seq_val(v@) == (digit_seq_val(Seq::<u8>::empty()) * 10 + (v@.last() - 48)) as nat);
        }
        v
    } else {
        let mut v = u64_to_digits(n / 10);
        let ghost prefix = v@;
        v.push(((n % 10) as u8) + 48);
        proof {
            assert(v@.drop_last() =~= prefix);
            assert(digit_seq_val(v@) == (digit_seq_val(prefix) * 10 + (v@.last() - 48)) as nat);
        }
        v
    }
}

/// The abstract outcome of reading a stored item: absent (or expired),
/// a live payload, or an item that does not match the expected shape.
pub enum ItemRead {
    Missing,
    Payload(Seq<u8>),
    Malformed,
}

/// The payload attribute of an item, once its expiration admits it: only a
/// binary value attribute is well-formed.
pub open spec fn spec_read_value(attrs: Seq<(String, Attr)>, value_name: Seq<char>) -> ItemRead {
    match attr_lookup_spec(attrs, value_name) {
        Option::Some(Attr::B(b)) => ItemRead::Payload(b@),
        _ => ItemRead::Malformed,
    }
}

/// What a read of a stored item observes at `now`: a malformed expiration
/// attribute (wrong type, or not a number that fits) is a data-format
/// failure; an expiration at or before `now` hides the item; otherwise the
/// payload attribute is read.
pub open spec fn spec_read_item(
    attrs: Seq<(String, Attr)>,
    expiration_name: Seq<char>,
    value_name: Seq<char>,
    now: u64,
) -> ItemRead {
    match attr_lookup_spec(attrs, expiration_name) {
        Option::Some(Attr::S(_)) => ItemRead::Malformed,
        Option::Some(Attr::B(_)) => ItemRead::Malformed,
        Option::Some(Attr::N(d)) => if !(d@.len() > 0 && is_digit_seq(d@) && digit_seq_val(d@)
            <= u64::MAX) {
            ItemRead::Malformed
        } else if digit_seq_val(d@) <= now {
            ItemRead::Missing
        } else {
            spec_read_value(attrs, value_name)
        },
        Option::Some(Attr::Null) => spec_read_value(attrs, value_name),
        Option::None => spec_read_value(attrs, value_name),
    }
}

/// Configuration of the store driver: the table, a prefix applied to every
/// key, and the three attribute names the driver reads and writes. The
/// connection configuration itself is held by the surrounding process.
pub struct Config {
    pub table: String,
    pub prefix: String,
    pub key_attribute: String,
    pub value_attribute: String,
    pub expiration_attribute: String,
}

impl Default for Config {
    /// The customary table and attribute names, with no key prefix.
    fn default() -> (r: Self)
        ensures
            r.table@ == "cache"@,
            r.prefix@ == Seq::<char>::empty(),
            r.key_attribute@ == "key"@,
            r.value_attribute@ == "value"@,
            r.expiration_attribute@ == "expires_at"@,
    {
        Config {
            prefix: String::new(),
            table: "cache".to_owned(),
            key_attribute: "key".to_owned(),
            value_attribute: "value".to_owned(),
            expiration_attribute: "expires_at".to_owned(),
        }
    }
}

/// Failures of the store driver: flushing is unsupported, a stored item had
/// an unexpected shape, an error reported by the store on one of its calls,
/// or a value the codec could not encode or read back.
#[derive(Debug, PartialEq, Eq)]
pub enum Error {
    FlushNotSupported,
    InvalidDataFormat,
    GetItem(String),
    PutItem(String),
    DeleteItem(String),
    Serialization,
}

/// A driver that uses a managed key-value store as a back end.
pub struct DynamoDBDriver {
    pub table: String,
    pub prefix: String,
    pub key_attribute: String,
    pub value_attribute: String,
    pub expiration_attribute: String,
}

impl DynamoDBDriver {
    /// Create a new instance of the driver; the store client itself is
    /// opened by the surrounding process.
    pub fn new(config: Config) -> (r: Result<Self, Error>)
        ensures
            r matches Ok(d) && d.table@ == config.table@ && d.prefix@ == config.prefix@
                && d.key_attribute@ == config.key_attribute@ && d.value_attribute@
                == config.value_attribute@ && d.expiration_attribute@
                == config.expiration_attribute@,
    {
        Ok(DynamoDBDriver {
            table: config.table,
            prefix: config.prefix,
            key_attribute: config.key_attribute,
            value_attribute: config.value_attribute,
            expiration_attribute: config.expiration_attribute,
        })
    }

    /// The storage key for a cache key: the configured prefix, then the key.
    pub fn prefixed(&self, key: &str) -> (r: String)
        ensures
            r@ == self.prefix@ + key@,
    {
        let mut k = self.prefix.clone();
        k.append(key);
        k
    }

    /// Read the item fetched for a key: validate its shape, check its
    /// expiration attribute against `now`, and hand back the payload bytes
    /// of a live item.
    pub fn get_item(&self, item: Option<&Vec<(String, Attr)>>, now: u64) -> (r: Result<
        Option<Vec<u8>>,
        Error,
    >)
        ensures
            match item {
                Some(attrs) => match spec_read_item(
                    attrs@,
                    self.expiration_attribute@,
                    self.value_attribute@,
                    now,
                ) {
                    ItemRead::Missing => r matches Ok(o) && o is None,
                    ItemRead::Payload(b) => r matches Ok(o) && (o matches Some(v) && v@ == b),
                    ItemRead::Malformed => r matches Err(e) && e == Error::InvalidDataFormat,
                },
                None => r matches Ok(o) && o is None,
            },
    {
        let attrs = match item {
            None => {
                return Ok(None);
            },
            Some(attrs) => attrs,
        };
        match attr_find(attrs, &self.expiration_attribute) {
            Some(i) => match &attrs[i].1 {
                Attr::N(digits) => match parse_u64(digits) {
                    Some(expires_at) => {
                        if expires_at <= now {
                            return Ok(None);
                        }
                    },
                    None => {
                        return Err(Error::InvalidDataFormat);
                    },
                },
                Attr::Null => {},
                _ => {
                    return Err(Error::InvalidDataFormat);
                },
            },
            None => {},
        }
        match attr_find(attrs, &self.value_attribute) {
            Some(i) => match &attrs[i].1 {
                Attr::B(data) => Ok(Some(data.clone())),
                _ => Err(Error::InvalidDataFormat),
            },
            None => Err(Error::InvalidDataFormat),
        }
    }

    /// Get a value from the cache: read the fetched item and decode a live
    /// payload; one the codec cannot read back is an error distinct from
    /// absence.
    pub fn get(&self, item: Option<&Vec<(String, Attr)>>, now: u64) -> (r: Result<
        Option<String>,
        Error,
    >)
        ensures
            match item {
                Some(attrs) => match spec_read_item(
                    attrs@,
                    self.expiration_attribute@,
                    self.value_attribute@,
                    now,
                ) {
                    ItemRead::Missing => r matches Ok(o) && o is None,
                    ItemRead::Payload(b) => match r {
                        Ok(Some(v)) => decoding_of(b) == Some(v@),
                        Ok(None) => false,
                        Err(e) => e == Error::Serialization && decoding_of(b) is None,
                    },
                    ItemRead::Malformed => r matches Err(e) && e == Error::InvalidDataFormat,
                },
                None => r matches Ok(o) && o is None,
            },
    {
        match self.get_item(item, now) {
            Err(e) => Err(e),
            Ok(None) => Ok(None),
            Ok(Some(data)) => match decode_value(&data) {
                Some(v) => Ok(Some(v)),
                None => Err(Error::Serialization),
            },
        }
    }

    /// Check if a value exists in the cache and is unexpired.
    pub fn has(&self, item: Option<&Vec<(String, Attr)>>, now: u64) -> (r: Result<bool, Error>)
        ensures
            match item {
                Some(attrs) => match spec_read_item(
                    attrs@,
                    self.expiration_attribute@,
                    self.value_attribute@,
                    now,
                ) {
                    ItemRead::Missing => r matches Ok(b) && b == false,
                    ItemRead::Payload(_) => r matches Ok(b) && b == true,
                    ItemRead::Malformed => r matches Err(e) && e == Error::InvalidDataFormat,
                },
                None => r matches Ok(b) && b == false,
            },
    {
        match self.get_item(item, now) {
            Err(e) => Err(e),
            Ok(item) => Ok(item.is_some()),
        }
    }

    /// Build the item a write sends: the prefixed key, the encoded payload,
    /// and the expiration attribute — the absolute instant as a number when
    /// a duration is given, null when storing forever.
    pub fn put(&self, key: &str, value: &String, expiry: Option<u64>, now: u64) -> (r: Result<
        Vec<(String, Attr)>,
        Error,
    >)
        ensures
            r is Ok,
            match r {
                Ok(item) => item@.len() == 3 && item@[0].0@ == self.key_attribute@ && (item@[0].1
                    matches Attr::S(k) && k@ == self.prefix@ + key@) && item@[1].0@
                    == self.value_attribute@ && (item@[1].1 matches Attr::B(b) && b@ == encoding_of(
                    value@,
                ) && decoding_of(b@) == Some(value@)) && item@[2].0@ == self.expiration_attribute@
                    && match expiry {
                    Some(d) => item@[2].1 matches Attr::N(ds) && ds@.len() > 0 && is_digit_seq(ds@)
                        && digit_seq_val(ds@) == expiry_at(now, d),
                    None => item@[2].1 is Null,
                },
                Err(e) => e == Error::Serialization,
            },
    {
        let data = match encode_value(value) {
            Some(d) => d,
            None => {
                return Err(Error::Serialization);
            },
        };
        let expiration = match expiry {
            Some(d) => Attr::N(u64_to_digits(now.saturating_add(d))),
            None => Attr::Null,
        };
        let mut item: Vec<(String, Attr)> = Vec::new();
        item.push((self.key_attribute.clone(), Attr::S(self.prefixed(key))));
        item.push((self.value_attribute.clone(), Attr::B(data)));
        item.push((self.expiration_attribute.clone(), expiration));
        Ok(item)
    }

    /// The key attribute a removal sends for a cache key.
    pub fn forget(&self, key: &str) -> (r: (String, Attr))
        ensures
            r.0@ == self.key_attribute@,
            r.1 matches Attr::S(k) && k@ == self.prefix@ + key@,
    {
        (self.key_attribute.clone(), Attr::S(self.prefixed(key)))
    }

    /// Remove all values from the cache: unsupported by this back end, so
    /// the call fails with the distinguished error and changes nothing.
    pub fn flush(&mut self) -> (r: Result<(), Error>)
        ensures
            r matches Err(e) && e == Error::FlushNotSupported,
            *final(self) == *old(self),
    {
        Err(Error::FlushNotSupported)
    }
}

/// Law: an item shaped as a write builds it — key, binary payload, and an
/// expiration attribute that is null or a well-formed number — is read back
/// as its payload while live: always, when the expiration is null; before
/// the expiration instant and absent from it on, when it is a number. The
/// three attribute names must be distinct, as they are in any usable
/// configuration.
pub proof fn lemma_item_roundtrip(
    item: Seq<(String, Attr)>,
    value_name: Seq<char>,
    expiration_name: Seq<char>,
    data: Seq<u8>,
    t: u64,
)
    requires
        item.len() == 3,
        item[0].0@ != value_name,
        item[0].0@ != expiration_name,
        value_name != expiration_name,
        item[1].0@ == value_name,
        item[1].1 matches Attr::B(b) && b@ == data,
        item[2].0@ == expiration_name,
        item[2].1 is Null || (item[2].1 matches Attr::N(ds) && ds@.len() > 0 && is_digit_seq(ds@)
            && digit_seq_val(ds@) <= u64::MAX),
    ensures
        match item[2].1 {
            Attr::Null => spec_read_item(item, expiration_name, value_name, t)
                == ItemRead::Payload(data),
            Attr::N(ds) => spec_read_item(item, expiration_name, value_name, t) == (if t
                < digit_seq_val(ds@) {
                ItemRead::Payload(data)
            } else {
                ItemRead::Missing
            }),
            _ => true,
        },
{
    let rest1 = item.subrange(1, 3);
    let rest2 = rest1.subrange(1, 2);
    assert(rest2 =~= item.subrange(2, 3));
    assert(rest1[0] == item[1]);
    assert(rest2[0] == item[2]);
    assert(rest2.subrange(1, 1) =~= Seq::<(String, Attr)>::empty());
    assert(item.subrange(1, item.len() as int) == rest1);
    assert(rest1.subrange(1, rest1.len() as int) == rest2);
    assert(attr_lookup_spec(item, expiration_name) == attr_lookup_spec(rest1, expiration_name));
    assert(attr_lookup_spec(rest1, expiration_name) == attr_lookup_spec(rest2, expiration_name));
    assert(attr_lookup_spec(rest2, expiration_name) == Some(item[2].1));
    assert(attr_lookup_spec(item, value_name) == attr_lookup_spec(rest1, value_name));
    assert(attr_lookup_spec(rest1, value_name) == Some(item[1].1));
}

} // verus!
