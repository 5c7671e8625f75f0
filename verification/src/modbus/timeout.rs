//! The read-timeout setting a master or slave adapter is built with.

use vstd::prelude::*;

verus! {

/// Carries the transport timeout, as nanoseconds.
#[derive(Clone, Copy, Debug)]
pub struct TimeautHeandler {
    pub write_timeout: u64,
}

impl TimeautHeandler {
    pub fn new(write_timeout: u64) -> (r: Self)
        ensures
            r.write_timeout == write_timeout,
    {
        TimeautHeandler { write_timeout }
    }

    pub fn get_timeout(&self) -> (r: u64)
        ensures
            r == self.write_timeout,
    {
        self.write_timeout
    }
}

} // verus!
