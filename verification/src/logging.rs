//! Diagnostics for wire keys the decoders do not recognize.
//!
//! Unknown keys are never fatal: the decoders count them and continue.  The
//! count is carried explicitly through the decoders and surfaced by the
//! loaders, so callers and tests can check how much of a file was understood.

use vstd::prelude::*;

verus! {

/// Counts the unsupported keys seen while decoding.
#[derive(Clone, Copy, Debug, PartialEq, Eq, Structural)]
pub struct UnsupportedCounter {
    pub count: u64,
}

impl UnsupportedCounter {
    pub fn new() -> (r: Self)
        ensures
            r.count == 0,
    {
        UnsupportedCounter { count: 0 }
    }

    /// How many unsupported keys have been seen.
    pub fn num_unsupported_keys(&self) -> (r: u64)
        ensures
            r == self.count,
    {
        self.count
    }
}

/// Record an unsupported top-level key.
#[allow(unused_variables)]
pub fn log_unsupported_key(counter: &mut UnsupportedCounter, key: &[u8], val: &[u8])
    ensures
        final(counter).count == if old(counter).count < u64::MAX {
            old(counter).count + 1
        } else {
            old(counter).count as int
        },
{
    if counter.count < u64::MAX {
        counter.count = counter.count + 1;
    }
}

/// Record an unsupported key seen while binding the fields of the named
/// record kind.
#[allow(unused_variables)]
pub fn macro_unsupported_key(counter: &mut UnsupportedCounter, name: &str, key: &[u8], val: &[u8])
    ensures
        final(counter).count == if old(counter).count < u64::MAX {
            old(counter).count + 1
        } else {
            old(counter).count as int
        },
{
    if counter.count < u64::MAX {
        counter.count = counter.count + 1;
    }
}

} // verus!
