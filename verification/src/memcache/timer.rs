//! The clock that the storage engine reads.

use vstd::prelude::*;

verus! {

/// A source of time in whole seconds since some fixed moment.
///
/// Nothing is assumed of the readings: every operation of the engine states
/// its effect for whatever reading it obtained.
pub trait Timer {
    /// The current reading of the clock.
    fn secs(&self) -> u64;
}

} // verus!
