//! Station-mode wireless association core.
//!
//! The library validates network credentials, selects the target network
//! among scan results, and drives the ordered association sequence
//! (start, scan, match, configure, connect, await lease) as a state
//! machine over plain values. Radio I/O itself is performed by the
//! caller, which executes each requested [`assoc::RadioAction`] and
//! reports the outcome back as a [`assoc::RadioEvent`].

use vstd::prelude::*;

pub mod assoc;
pub mod config;
pub mod credential;
pub mod handle;
pub mod scan;

verus! {

/// Addition on unsigned 64-bit integers, callable only when the sum
/// fits, so it can never wrap.
pub fn add(left: u64, right: u64) -> (r: u64)
    requires
        left + right <= u64::MAX,
    ensures
        r == left + right,
{
    left + right
}

} // verus!
