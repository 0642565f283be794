//! A driver that uses a native-TTL key-value store: expiration is delegated
//! entirely to the back end. A write with a duration carries an expire-after
//! directive, a write without one carries none, and the store itself makes
//! expired keys invisible and reclaims them, so reads need no local
//! expiration check.
//!
//! The store is reached over the network, so this module holds the verified
//! half of each operation: building the command to send (key prefixing, the
//! choice of write directive, value encoding) and reading the reply that
//! came back (value decoding). The surrounding process performs the actual
//! exchange and hands both sides across as plain values.

use vstd::prelude::*;
use super::{decode_value, decoding_of, encode_value, encoding_of};
use vstd::string::StringExecFns;

verus! {

/// Configuration of the store connection: a prefix applied to every key,
/// and the address of the store.
pub struct Config {
    pub prefix: String,
    pub redis_url: String,
}

impl Default for Config {
    /// An empty prefix and a local store address.
    fn default() -> (r: Self)
        ensures
            r.prefix@ == Seq::<char>::empty(),
            r.redis_url@ == "redis://localhost"@,
    {
        Config { prefix: String::new(), redis_url: "redis://localhost".to_owned() }
    }
}

/// A write command for the store, ready to send: either set-with-expiry
/// (the back end drops the key once `seconds` have passed) or a plain set
/// with no expiry directive.
pub enum WriteCommand {
    SetWithExpiry { key: String, data: Vec<u8>, seconds: u64 },
    SetForever { key: String, data: Vec<u8> },
}

/// Failures of the store driver: an error reported by the store itself, or
/// a value the codec could not encode or read back.
#[derive(Debug, PartialEq, Eq)]
pub enum Error {
    Redis(String),
    Serialization,
}

/// A driver that uses a native-TTL store.
pub struct RedisDriver {
    prefix: String,
}

impl RedisDriver {
    /// The prefix this driver applies to every key.
    pub closed spec fn prefix_view(&self) -> Seq<char> {
        self.prefix@
    }

    /// Create a new instance of the driver. The network connection itself
    /// is opened by the surrounding process; the driver keeps what the
    /// commands it builds depend on.
    pub fn new(config: Config) -> (r: Result<Self, Error>)
        ensures
            r matches Ok(d) && d.prefix_view() == config.prefix@,
    {
        Ok(RedisDriver { prefix: config.prefix })
    }

    /// The storage key for a cache key: the configured prefix, then the key.
    pub fn prefixed(&self, key: &str) -> (r: String)
        ensures
            r@ == self.prefix_view() + key@,
    {
        let mut k = self.prefix.clone();
        k.append(key);
        k
    }

    /// Build the write command that stores `value` under `key`, with an
    /// expire-after directive of `expiry` seconds when a duration is given;
    /// the surrounding process sends it.
    pub fn put(&self, key: &str, value: &String, expiry: Option<u64>) -> (r: Result<
        WriteCommand,
        Error,
    >)
        ensures
            r is Ok,
            match r {
                Ok(c) => match c {
                    WriteCommand::SetWithExpiry { key: k, data, seconds } => expiry matches Some(s)
                        && seconds == s && k@ == self.prefix_view() + key@ && data@ == encoding_of(
                        value@,
                    ) && decoding_of(data@) == Some(value@),
                    WriteCommand::SetForever { key: k, data } => expiry is None && k@
                        == self.prefix_view() + key@ && data@ == encoding_of(value@) && decoding_of(
                        data@,
                    ) == Some(value@),
                },
                Err(e) => e == Error::Serialization,
            },
    {
        let data = match encode_value(value) {
            Some(d) => d,
            None => {
                return Err(Error::Serialization);
            },
        };
        let k = self.prefixed(key);
        match expiry {
            Some(seconds) => Ok(WriteCommand::SetWithExpiry { key: k, data, seconds }),
            None => Ok(WriteCommand::SetForever { key: k, data }),
        }
    }

    /// Get a value from the fetched reply: no payload means the key is
    /// absent or expired in the store; a payload is decoded, and one the
    /// codec cannot read back is an error distinct from absence.
    pub fn get(&self, data: Option<Vec<u8>>) -> (r: Result<Option<String>, Error>)
        ensures
            match r {
                Ok(Some(v)) => data matches Some(d) && decoding_of(d@) == Some(v@),
                Ok(None) => data is None,
                Err(e) => e == Error::Serialization && (data matches Some(d) && decoding_of(
                    d@,
                ) is None),
            },
    {
        match data {
            None => Ok(None),
            Some(d) => match decode_value(&d) {
                Some(v) => Ok(Some(v)),
                None => Err(Error::Serialization),
            },
        }
    }
}

} // verus!
