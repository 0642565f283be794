//! A driver that does nothing: every operation succeeds trivially and has no
//! effect, and reads always report absence. Used for disabling caching
//! without changing call sites.

use vstd::prelude::*;
use super::{Driver, Entry};

verus! {

/// A driver that does nothing.
pub struct NullDriver;

impl Driver for NullDriver {
    type Config = ();

    type Error = core::convert::Infallible;

    closed spec fn model(&self) -> Map<Seq<char>, Entry> {
        Map::empty()
    }

    open spec fn persistent() -> bool {
        false
    }

    open spec fn supports_flush() -> bool {
        true
    }

    open spec fn infallible() -> bool {
        true
    }

    fn new(_config: ()) -> (r: Result<Self, core::convert::Infallible>)
        ensures
            r is Ok,
    {
        Ok(NullDriver)
    }

    fn get(&self, _key: &str, _now: u64) -> (r: Result<Option<String>, core::convert::Infallible>)
        ensures
            r is Ok,
    {
        Ok(None)
    }

    fn has(&self, _key: &str, _now: u64) -> (r: Result<bool, core::convert::Infallible>)
        ensures
            r is Ok,
    {
        Ok(false)
    }

    fn put(&mut self, _key: &str, _value: &String, _expiry: Option<u64>, _now: u64) -> (r: Result<
        (),
        core::convert::Infallible,
    >)
        ensures
            r is Ok,
    {
        Ok(())
    }

    fn forget(&mut self, _key: &str) -> (r: Result<(), core::convert::Infallible>)
        ensures
            r is Ok,
    {
        Ok(())
    }

    fn flush(&mut self) -> (r: Result<(), core::convert::Infallible>)
        ensures
            r is Ok,
    {
        Ok(())
    }
}

} // verus!
