//! What can keep the clock functions from an answer.

use vstd::prelude::*;

verus! {

/// Why there is no timestamp, or no interval, to hand back.
#[derive(Debug, PartialEq, Eq, Structural, Clone, Copy)]
pub enum TimingError {
    /// The system clock reads a time before the UNIX epoch.
    ClockBeforeEpoch,
    /// The timestamp lies in the first period after the epoch, when no
    /// interval of the length asked for has been completed yet.
    NoCompleteInterval,
}

} // verus!
